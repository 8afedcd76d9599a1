//! The typed card format. Properties in a card line: `A;` introduces an
//! action, `T<priority>;` a triggered property and `P<priority>;` a passive
//! one, where a priority is digits, optionally followed by `.` and digits.
//! Card text: fixed phrases and `card with` phrases become commands. Action
//! properties: their effect, attributes or cost, read as text.
use vstd::prelude::*;

use crate::text::{
    all_digits, digit_free,
    byte_offset, byte_offset_of, char_at_byte, char_index_at_byte, chars_and_byte_len,
    append_chars, char_utf8_len, find_pat, find_pat_from, from_chars, replace_all, replace_str,
    seqs, split_chars, split_on, sub_chars, to_chars, trim, trim_chars, utf8_len,
};

verus! {

/// The kind of a property.
#[derive(Copy, Clone, Debug, PartialEq, Eq, Structural)]
pub enum PropertyType {
    action_,
    triggered_,
    passive_,
}

/// How far the priority of a triggered or passive property has been read.
#[derive(Copy, Clone, Debug, PartialEq, Eq, Structural)]
pub enum PriorityReadingState {
    integer_,
    period_,
    decimal_,
    beginning_,
}

/// Whether `c` is an ASCII digit.
pub open spec fn is_digit(c: char) -> bool {
    '0' <= c && c <= '9'
}

/// Where the scan for a property marker stands.
pub enum ScanState {
    /// No marker has started.
    Idle,
    /// An `A` at the given position was read.
    Action(int),
    /// A `T` or `P` at the given position and part of its priority were read.
    Priority(PropertyType, int, PriorityReadingState),
}

/// Scans `s` from `p` on in state `st`; gives the kind and position of the
/// first complete marker. A character that breaks a marker is not itself
/// taken as the start of a new one.
pub open spec fn scan(s: Seq<char>, p: int, st: ScanState) -> Option<(PropertyType, int)>
    decreases s.len() - p,
{
    if p < 0 || p >= s.len() {
        None
    } else {
        let c = s[p];
        match st {
            ScanState::Idle => if c == 'A' {
                scan(s, p + 1, ScanState::Action(p))
            } else if c == 'T' {
                scan(
                    s,
                    p + 1,
                    ScanState::Priority(PropertyType::triggered_, p, PriorityReadingState::beginning_),
                )
            } else if c == 'P' {
                scan(
                    s,
                    p + 1,
                    ScanState::Priority(PropertyType::passive_, p, PriorityReadingState::beginning_),
                )
            } else {
                scan(s, p + 1, ScanState::Idle)
            },
            ScanState::Action(q) => if c == ';' {
                Some((PropertyType::action_, q))
            } else {
                scan(s, p + 1, ScanState::Idle)
            },
            ScanState::Priority(t, q, r) => match r {
                PriorityReadingState::beginning_ => if is_digit(c) {
                    scan(s, p + 1, ScanState::Priority(t, q, PriorityReadingState::integer_))
                } else {
                    scan(s, p + 1, ScanState::Idle)
                },
                PriorityReadingState::integer_ => if is_digit(c) {
                    scan(s, p + 1, ScanState::Priority(t, q, PriorityReadingState::integer_))
                } else if c == '.' {
                    scan(s, p + 1, ScanState::Priority(t, q, PriorityReadingState::period_))
                } else if c == ';' {
                    Some((t, q))
                } else {
                    scan(s, p + 1, ScanState::Idle)
                },
                PriorityReadingState::period_ => if is_digit(c) {
                    scan(s, p + 1, ScanState::Priority(t, q, PriorityReadingState::decimal_))
                } else {
                    scan(s, p + 1, ScanState::Idle)
                },
                PriorityReadingState::decimal_ => if is_digit(c) {
                    scan(s, p + 1, ScanState::Priority(t, q, PriorityReadingState::decimal_))
                } else if c == ';' {
                    Some((t, q))
                } else {
                    scan(s, p + 1, ScanState::Idle)
                },
            },
        }
    }
}

/// The kind and character position of the first property marker at or after
/// character `start`.
fn next_typed_marker(string: &[char], start: usize) -> (r: Option<(PropertyType, usize)>)
    ensures
        r matches Some((_, p)) ==> p < string.len(),
        match r {
            Some((t, p)) => scan(string@, start as int, ScanState::Idle) == Some((t, p as int)),
            None => scan(string@, start as int, ScanState::Idle) is None,
        },
{
    let mut priority_reading_state = PriorityReadingState::beginning_;
    let mut prop: Option<(PropertyType, usize)> = None;
    let mut p = start;
    while p < string.len()
        invariant
            start <= p,
            prop matches Some((_, q)) ==> q < p,
            scan(string@, start as int, ScanState::Idle) == scan(
                string@,
                p as int,
                match prop {
                    None => ScanState::Idle,
                    Some((PropertyType::action_, q)) => ScanState::Action(q as int),
                    Some((t, q)) => ScanState::Priority(t, q as int, priority_reading_state),
                },
            ),
            prop is None ==> priority_reading_state == PriorityReadingState::beginning_,
            prop matches Some((PropertyType::action_, _)) ==> priority_reading_state
                == PriorityReadingState::beginning_,
        decreases string.len() - p,
    {
        let c = string[p];
        let digit = '0' <= c && c <= '9';
        match prop {
            None => {
                if c == 'A' {
                    prop = Some((PropertyType::action_, p));
                } else if c == 'T' {
                    prop = Some((PropertyType::triggered_, p));
                } else if c == 'P' {
                    prop = Some((PropertyType::passive_, p));
                }
            },
            Some((pt, q)) => {
                match pt {
                    PropertyType::action_ => {
                        if c == ';' {
                            return prop;
                        } else {
                            prop = None;
                        }
                    },
                    PropertyType::triggered_ | PropertyType::passive_ => {
                        match priority_reading_state {
                            PriorityReadingState::beginning_ => {
                                if digit {
                                    priority_reading_state = PriorityReadingState::integer_;
                                } else {
                                    priority_reading_state = PriorityReadingState::beginning_;
                                    prop = None;
                                }
                            },
                            PriorityReadingState::integer_ => {
                                if digit {
                                } else if c == '.' {
                                    priority_reading_state = PriorityReadingState::period_;
                                } else if c == ';' {
                                    return prop;
                                } else {
                                    priority_reading_state = PriorityReadingState::beginning_;
                                    prop = None;
                                }
                            },
                            PriorityReadingState::period_ => {
                                if digit {
                                    priority_reading_state = PriorityReadingState::decimal_;
                                } else {
                                    priority_reading_state = PriorityReadingState::beginning_;
                                    prop = None;
                                }
                            },
                            PriorityReadingState::decimal_ => {
                                if digit {
                                } else if c == ';' {
                                    return prop;
                                } else {
                                    priority_reading_state = PriorityReadingState::beginning_;
                                    prop = None;
                                }
                            },
                        }
                    },
                }
            },
        }
        p += 1;
    }
    None
}


/// The kind and byte offset of the first property marker that starts at a
/// byte offset of at least `start`.
pub fn find_next_property_position(string: &str, start: usize) -> (r: Option<(PropertyType, usize)>)
    ensures
        match scan(string@, char_at_byte(string@, start as int), ScanState::Idle) {
            Some((t, p)) => r matches Some((t2, b)) && t2 == t && b == byte_offset(string@, p),
            None => r is None,
        },
{
    let (v, n) = chars_and_byte_len(string);
    let i = char_index_at_byte(v.as_slice(), start, n);
    match next_typed_marker(v.as_slice(), i) {
        None => None,
        Some((t, p)) => {
            Some((t, byte_offset_of(v.as_slice(), p, n)))
        },
    }
}

/// The fixed phrases of group 0 (of five, seven phrases each) of card text
/// turned into commands, in order.
#[verifier::opaque]
pub open spec fn phrase_group_0(s: Seq<char>) -> Seq<char> {
    let s = replace_all(s, "\n "@, " "@);
    let s = replace_all(s, "  "@, " "@);
    let s = replace_all(s, "Boost"@, "¤(Boost)"@);
    let s = replace_all(s, "boost"@, "¤(boost)"@);
    let s = replace_all(s, "experience"@, "¤(xp)"@);
    let s = replace_all(s, "Experience"@, "¤(Xp)"@);
    let s = replace_all(s, " mana "@, " ¤(mana) "@);
    s
}

/// The fixed phrases of group 1 (of five, seven phrases each) of card text
/// turned into commands, in order.
#[verifier::opaque]
pub open spec fn phrase_group_1(s: Seq<char>) -> Seq<char> {
    let s = replace_all(s, " mana."@, " ¤(mana)."@);
    let s = replace_all(s, " mana,"@, " ¤(mana),"@);
    let s = replace_all(s, " Mana "@, " ¤(Mana) "@);
    let s = replace_all(s, " Mana."@, " ¤(Mana)."@);
    let s = replace_all(s, " Mana,"@, " ¤(Mana),"@);
    let s = replace_all(s, "I’m"@, "I am"@);
    let s = replace_all(s, "I'm"@, "I am"@);
    s
}

/// The fixed phrases of group 2 (of five, seven phrases each) of card text
/// turned into commands, in order.
#[verifier::opaque]
pub open spec fn phrase_group_2(s: Seq<char>) -> Seq<char> {
    let s = replace_all(s, ". I am "@, ". ¤(I am) "@);
    let s = replace_all(s, " I am "@, " ¤(i am) "@);
    let s = replace_all(s, " I have"@, " ¤(i have)"@);
    let s = replace_all(s, ". I have"@, " ¤(I have)"@);
    let s = replace_all(s, " my "@, " ¤(my) "@);
    let s = replace_all(s, ". My "@, ". ¤(My) "@);
    let s = replace_all(s, " me "@, " ¤(me) "@);
    s
}

/// The fixed phrases of group 3 (of five, seven phrases each) of card text
/// turned into commands, in order.
#[verifier::opaque]
pub open spec fn phrase_group_3(s: Seq<char>) -> Seq<char> {
    let s = replace_all(s, " me,"@, " ¤(me),"@);
    let s = replace_all(s, " me."@, " ¤(me)."@);
    let s = replace_all(s, " Me "@, " ¤(Me) "@);
    let s = replace_all(s, " Me,"@, " ¤(Me),"@);
    let s = replace_all(s, " Me."@, " ¤(Me)."@);
    let s = replace_all(s, "\nI "@, "\n¤(I) "@);
    let s = replace_all(s, ". I "@, ". ¤(I) "@);
    s
}

/// The fixed phrases of group 4 (of five, seven phrases each) of card text
/// turned into commands, in order.
#[verifier::opaque]
pub open spec fn phrase_group_4(s: Seq<char>) -> Seq<char> {
    let s = replace_all(s, ". I,"@, ". ¤(I),"@);
    let s = replace_all(s, ". I."@, ". ¤(I). "@);
    let s = replace_all(s, " I "@, " ¤(i) "@);
    let s = replace_all(s, " I,"@, " ¤(i),"@);
    let s = replace_all(s, " I."@, " ¤(i)."@);
    let s = replace_all(s, "Cards ¤(I am) attached to"@, "The card ¤(I am) attached to"@);
    let s = replace_all(s, "cards ¤(I am) attached to"@, "the card ¤(I am) attached to"@);
    s
}

/// Card text trimmed, with its fixed phrases turned into commands, in order.
pub open spec fn inject_fixed(s: Seq<char>) -> Seq<char> {
    phrase_group_4(phrase_group_3(phrase_group_2(phrase_group_1(phrase_group_0(trim(s))))))
}

/// Card text trimmed, with its fixed phrases turned into commands.
fn inject_fixed_chars(v: &[char]) -> (r: Vec<char>)
    ensures
        r@ == inject_fixed(v@),
{
    proof {
        reveal(phrase_group_0);
        reveal(phrase_group_1);
        reveal(phrase_group_2);
        reveal(phrase_group_3);
        reveal(phrase_group_4);
    }
    let v = trim_chars(v);
    proof {
        reveal_strlit("\n ");
    }
    let v = replace_str(v.as_slice(), "\n ", " ");
    proof {
        reveal_strlit("  ");
    }
    let v = replace_str(v.as_slice(), "  ", " ");
    proof {
        reveal_strlit("Boost");
    }
    let v = replace_str(v.as_slice(), "Boost", "¤(Boost)");
    proof {
        reveal_strlit("boost");
    }
    let v = replace_str(v.as_slice(), "boost", "¤(boost)");
    proof {
        reveal_strlit("experience");
    }
    let v = replace_str(v.as_slice(), "experience", "¤(xp)");
    proof {
        reveal_strlit("Experience");
    }
    let v = replace_str(v.as_slice(), "Experience", "¤(Xp)");
    proof {
        reveal_strlit(" mana ");
    }
    let v = replace_str(v.as_slice(), " mana ", " ¤(mana) ");
    proof {
        reveal_strlit(" mana.");
    }
    let v = replace_str(v.as_slice(), " mana.", " ¤(mana).");
    proof {
        reveal_strlit(" mana,");
    }
    let v = replace_str(v.as_slice(), " mana,", " ¤(mana),");
    proof {
        reveal_strlit(" Mana ");
    }
    let v = replace_str(v.as_slice(), " Mana ", " ¤(Mana) ");
    proof {
        reveal_strlit(" Mana.");
    }
    let v = replace_str(v.as_slice(), " Mana.", " ¤(Mana).");
    proof {
        reveal_strlit(" Mana,");
    }
    let v = replace_str(v.as_slice(), " Mana,", " ¤(Mana),");
    proof {
        reveal_strlit("I’m");
    }
    let v = replace_str(v.as_slice(), "I’m", "I am");
    proof {
        reveal_strlit("I'm");
    }
    let v = replace_str(v.as_slice(), "I'm", "I am");
    proof {
        reveal_strlit(". I am ");
    }
    let v = replace_str(v.as_slice(), ". I am ", ". ¤(I am) ");
    proof {
        reveal_strlit(" I am ");
    }
    let v = replace_str(v.as_slice(), " I am ", " ¤(i am) ");
    proof {
        reveal_strlit(" I have");
    }
    let v = replace_str(v.as_slice(), " I have", " ¤(i have)");
    proof {
        reveal_strlit(". I have");
    }
    let v = replace_str(v.as_slice(), ". I have", " ¤(I have)");
    proof {
        reveal_strlit(" my ");
    }
    let v = replace_str(v.as_slice(), " my ", " ¤(my) ");
    proof {
        reveal_strlit(". My ");
    }
    let v = replace_str(v.as_slice(), ". My ", ". ¤(My) ");
    proof {
        reveal_strlit(" me ");
    }
    let v = replace_str(v.as_slice(), " me ", " ¤(me) ");
    proof {
        reveal_strlit(" me,");
    }
    let v = replace_str(v.as_slice(), " me,", " ¤(me),");
    proof {
        reveal_strlit(" me.");
    }
    let v = replace_str(v.as_slice(), " me.", " ¤(me).");
    proof {
        reveal_strlit(" Me ");
    }
    let v = replace_str(v.as_slice(), " Me ", " ¤(Me) ");
    proof {
        reveal_strlit(" Me,");
    }
    let v = replace_str(v.as_slice(), " Me,", " ¤(Me),");
    proof {
        reveal_strlit(" Me.");
    }
    let v = replace_str(v.as_slice(), " Me.", " ¤(Me).");
    proof {
        reveal_strlit("\nI ");
    }
    let v = replace_str(v.as_slice(), "\nI ", "\n¤(I) ");
    proof {
        reveal_strlit(". I ");
    }
    let v = replace_str(v.as_slice(), ". I ", ". ¤(I) ");
    proof {
        reveal_strlit(". I,");
    }
    let v = replace_str(v.as_slice(), ". I,", ". ¤(I),");
    proof {
        reveal_strlit(". I.");
    }
    let v = replace_str(v.as_slice(), ". I.", ". ¤(I). ");
    proof {
        reveal_strlit(" I ");
    }
    let v = replace_str(v.as_slice(), " I ", " ¤(i) ");
    proof {
        reveal_strlit(" I,");
    }
    let v = replace_str(v.as_slice(), " I,", " ¤(i),");
    proof {
        reveal_strlit(" I.");
    }
    let v = replace_str(v.as_slice(), " I.", " ¤(i).");
    proof {
        reveal_strlit("Cards ¤(I am) attached to");
    }
    let v = replace_str(v.as_slice(), "Cards ¤(I am) attached to", "The card ¤(I am) attached to");
    proof {
        reveal_strlit("cards ¤(I am) attached to");
    }
    let v = replace_str(v.as_slice(), "cards ¤(I am) attached to", "the card ¤(I am) attached to");
    v
}

/// Whether `c` is an ASCII letter.
pub open spec fn ascii_letter(c: char) -> bool {
    ('a' <= c && c <= 'z') || ('A' <= c && c <= 'Z')
}

/// Whether `c` is an ASCII letter.
fn is_ascii_letter(c: char) -> (b: bool)
    ensures
        b == ascii_letter(c),
{
    ('a' <= c && c <= 'z') || ('A' <= c && c <= 'Z')
}

/// The first position at or after `from` whose character is not an ASCII
/// letter, if there is one.
pub open spec fn word_end(s: Seq<char>, from: int) -> Option<int>
    decreases s.len() - from,
{
    if from < 0 || from >= s.len() {
        None
    } else if !ascii_letter(s[from]) {
        Some(from)
    } else {
        word_end(s, from + 1)
    }
}

/// What `word_end` gives, stated pointwise.
proof fn lemma_word_end(s: Seq<char>, from: int)
    requires
        0 <= from,
    ensures
        match word_end(s, from) {
            Some(j) => from <= j < s.len() && !ascii_letter(s[j]) && forall|x: int|
                from <= x < j ==> ascii_letter(#[trigger] s[x]),
            None => true,
        },
    decreases s.len() - from,
{
    if from < s.len() && ascii_letter(s[from]) {
        lemma_word_end(s, from + 1);
    }
}

/// The first position at or after `from` whose character is not an ASCII
/// letter.
fn find_word_end(v: &[char], from: usize) -> (r: Option<usize>)
    ensures
        r == (match word_end(v@, from as int) {
            Some(j) => Some(j as usize),
            None => None::<usize>,
        }),
{
    let mut i = from;
    while i < v.len()
        invariant
            from <= i,
            word_end(v@, from as int) == word_end(v@, i as int),
        decreases v.len() - i,
    {
        if !is_ascii_letter(v[i]) {
            return Some(i);
        }
        i += 1;
    }
    None
}

/// The phrases `card with` and its kin, which become commands that name the
/// word after them.
#[derive(Clone, Copy, Debug, PartialEq, Eq)]
pub enum WithPhrase {
    /// `Card with word` becomes `¤(Cwsn(word))`.
    Card,
    /// `card with word` becomes `¤(cwsn(word))`.
    CardLower,
    /// `Cards with word` becomes `¤(Cswsn(word))`.
    Cards,
    /// `cards with word` becomes `¤(cswsn(word))`.
    CardsLower,
}

/// The phrase itself.
pub open spec fn with_marker(k: WithPhrase) -> Seq<char> {
    match k {
        WithPhrase::Card => "Card with"@,
        WithPhrase::CardLower => "card with"@,
        WithPhrase::Cards => "Cards with"@,
        WithPhrase::CardsLower => "cards with"@,
    }
}

/// The text that opens the command the phrase becomes.
pub open spec fn with_head(k: WithPhrase) -> Seq<char> {
    match k {
        WithPhrase::Card => "¤(Cwsn("@,
        WithPhrase::CardLower => "¤(cwsn("@,
        WithPhrase::Cards => "¤(Cswsn("@,
        WithPhrase::CardsLower => "¤(cswsn("@,
    }
}

/// A command is two characters shorter than its phrase.
proof fn lemma_with_phrase(k: WithPhrase)
    ensures
        with_marker(k).len() >= 9,
        with_head(k).len() + 2 == with_marker(k).len(),
{
    reveal_strlit("Card with");
    reveal_strlit("card with");
    reveal_strlit("Cards with");
    reveal_strlit("cards with");
    reveal_strlit("¤(Cwsn(");
    reveal_strlit("¤(cwsn(");
    reveal_strlit("¤(Cswsn(");
    reveal_strlit("¤(cswsn(");
}

/// Turns the phrase at `pos` into its command: the letters from the second
/// character after the phrase on become the command's parameter. `None`
/// where no character other than a letter ends them, which never finishes,
/// or where the character after the phrase takes more than one byte.
pub open spec fn with_step(s: Seq<char>, k: WithPhrase, pos: int) -> Option<Seq<char>> {
    let m = with_marker(k).len();
    let w = pos + m + 1;
    match word_end(s, w) {
        None => None,
        Some(j) => if utf8_len(s[pos + m]) == 1 {
            Some(
                s.subrange(0, pos) + with_head(k) + s.subrange(w, j) + seq![')', ')'] + s.subrange(
                    j,
                    s.len() as int,
                ),
            )
        } else {
            None
        },
    }
}

/// `s` with the phrases `k` turned into commands, always the first next,
/// taking at most `steps` steps. `None` where a step fails.
pub open spec fn expand_with_steps(s: Seq<char>, k: WithPhrase, steps: nat) -> Option<Seq<char>>
    decreases steps,
{
    match find_pat_from(s, with_marker(k), 0) {
        None => Some(s),
        Some(pos) => match with_step(s, k, pos) {
            None => None,
            Some(t) => if steps == 0 {
                None
            } else {
                expand_with_steps(t, k, (steps - 1) as nat)
            },
        },
    }
}

/// `s` with the phrases `k` turned into commands; `None` where a step fails.
pub open spec fn expand_with(s: Seq<char>, k: WithPhrase) -> Option<Seq<char>> {
    expand_with_steps(s, k, s.len())
}

/// Card text with its phrases turned into commands: the fixed phrases, then
/// `Card with`, `card with`, `Cards with` and `cards with`. `None` where one
/// of the latter fails.
pub open spec fn phrase_commands(s: Seq<char>) -> Option<Seq<char>> {
    match expand_with(inject_fixed(s), WithPhrase::Card) {
        None => None,
        Some(a) => match expand_with(a, WithPhrase::CardLower) {
            None => None,
            Some(b) => match expand_with(b, WithPhrase::Cards) {
                None => None,
                Some(c) => expand_with(c, WithPhrase::CardsLower),
            },
        },
    }
}

/// The phrase `k`.
fn with_marker_chars(k: WithPhrase) -> (r: Vec<char>)
    ensures
        r@ == with_marker(k),
{
    match k {
        WithPhrase::Card => to_chars("Card with"),
        WithPhrase::CardLower => to_chars("card with"),
        WithPhrase::Cards => to_chars("Cards with"),
        WithPhrase::CardsLower => to_chars("cards with"),
    }
}

/// The text that opens the command of phrase `k`.
fn with_head_chars(k: WithPhrase) -> (r: Vec<char>)
    ensures
        r@ == with_head(k),
{
    match k {
        WithPhrase::Card => to_chars("¤(Cwsn("),
        WithPhrase::CardLower => to_chars("¤(cwsn("),
        WithPhrase::Cards => to_chars("¤(Cswsn("),
        WithPhrase::CardsLower => to_chars("¤(cswsn("),
    }
}

/// One step at `pos`, where the text has the phrase.
fn with_step_chars(v: &[char], k: WithPhrase, pos: usize, marker: &Vec<char>, head: &Vec<char>) -> (r:
    Option<Vec<char>>)
    requires
        marker@ == with_marker(k),
        head@ == with_head(k),
        find_pat_from(v@, with_marker(k), 0) == Some(pos as int),
    ensures
        match r {
            Some(t) => with_step(v@, k, pos as int) == Some(t@) && t.len() + 1 == v.len(),
            None => with_step(v@, k, pos as int) is None,
        },
{
    proof {
        crate::text::lemma_find_pat_from(v@, with_marker(k), 0);
        lemma_with_phrase(k);
    }
    let m = marker.len();
    assert(pos + m <= v.len());
    if pos + m >= v.len() {
        return None;
    }
    let w = pos + m + 1;
    proof {
        lemma_word_end(v@, w as int);
    }
    match find_word_end(v, w) {
        None => None,
        Some(j) => {
            if char_utf8_len(v[pos + m]) == 1 {
                let mut out = sub_chars(v, 0, pos);
                let ghost pre = out@;
                append_chars(&mut out, head.as_slice());
                let word = sub_chars(v, w, j);
                append_chars(&mut out, word.as_slice());
                out.push(')');
                out.push(')');
                let rest = sub_chars(v, j, v.len());
                append_chars(&mut out, rest.as_slice());
                assert(out@ =~= pre + head@ + word@ + seq![')', ')'] + rest@);
                Some(out)
            } else {
                None
            }
        },
    }
}

/// `v` with the phrases `k` turned into commands; `None` where a step fails.
fn expand_with_chars(v: Vec<char>, k: WithPhrase) -> (r: Option<Vec<char>>)
    ensures
        match r {
            Some(t) => expand_with(v@, k) == Some(t@),
            None => expand_with(v@, k) is None,
        },
{
    let ghost orig = v@;
    let mut cur = v;
    let ghost mut fuel: int = orig.len() as int;
    let marker = with_marker_chars(k);
    let head = with_head_chars(k);
    proof {
        lemma_with_phrase(k);
    }
    loop
        invariant
            orig == v@,
            marker@ == with_marker(k),
            head@ == with_head(k),
            with_marker(k).len() >= 9,
            fuel >= cur.len(),
            expand_with(orig, k) == expand_with_steps(cur@, k, fuel as nat),
        decreases cur.len(),
    {
        proof {
            crate::text::lemma_find_pat_from(cur@, with_marker(k), 0);
        }
        match find_pat(cur.as_slice(), marker.as_slice(), 0) {
            None => {
                return Some(cur);
            },
            Some(pos) => {
                match with_step_chars(cur.as_slice(), k, pos, &marker, &head) {
                    None => {
                        return None;
                    },
                    Some(t) => {
                        assert(fuel > 0);
                        assert(expand_with_steps(cur@, k, fuel as nat) == expand_with_steps(
                            t@,
                            k,
                            (fuel - 1) as nat,
                        ));
                        proof {
                            fuel = fuel - 1;
                        }
                        cur = t;
                    },
                }
            },
        }
    }
}

/// Card text with its phrases turned into commands, or `None` where a
/// `card with` phrase is not followed by a word that something other than a
/// letter ends, or is followed by a character of more than one byte.
pub fn try_inject_phrase_commands(string: &str) -> (r: Option<String>)
    ensures
        match r {
            Some(t) => phrase_commands(string@) == Some(t@),
            None => phrase_commands(string@) is None,
        },
{
    let v = to_chars(string);
    let v = inject_fixed_chars(v.as_slice());
    let a = match expand_with_chars(v, WithPhrase::Card) {
        Some(a) => a,
        None => {
            return None;
        },
    };
    let b = match expand_with_chars(a, WithPhrase::CardLower) {
        Some(b) => b,
        None => {
            return None;
        },
    };
    let c = match expand_with_chars(b, WithPhrase::Cards) {
        Some(c) => c,
        None => {
            return None;
        },
    };
    match expand_with_chars(c, WithPhrase::CardsLower) {
        Some(d) => Some(from_chars(d.as_slice())),
        None => None,
    }
}

/// Card text with its phrases turned into commands.
pub fn inject_phrase_commands(string: &str) -> (r: String)
    requires
        phrase_commands(string@) is Some,
    ensures
        r@ == phrase_commands(string@).unwrap(),
{
    match try_inject_phrase_commands(string) {
        Some(t) => t,
        None => String::new(),
    }
}

/// Turning the phrases of one kind into commands, where it succeeds, leaves
/// none of that kind.
pub proof fn lemma_no_phrase_left(s: Seq<char>, k: WithPhrase, steps: nat)
    requires
        expand_with_steps(s, k, steps) is Some,
    ensures
        find_pat_from(expand_with_steps(s, k, steps).unwrap(), with_marker(k), 0) is None,
    decreases steps,
{
    if let Some(pos) = find_pat_from(s, with_marker(k), 0) {
        let t = with_step(s, k, pos).unwrap();
        lemma_no_phrase_left(t, k, (steps - 1) as nat);
    }
}

/// Where the phrase sits within its marker: every character is an ASCII
/// letter but one space, at `with_space(k)`.
spec fn with_space(k: WithPhrase) -> int {
    match k {
        WithPhrase::Card | WithPhrase::CardLower => 4,
        _ => 5,
    }
}

/// The characters of phrases and of the commands they become.
proof fn lemma_phrase_chars(k: WithPhrase)
    ensures
        with_marker(k)[with_space(k)] == ' ',
        0 <= with_space(k) < with_marker(k).len(),
        forall|x: int|
            0 <= x < with_marker(k).len() ==> #[trigger] with_marker(k)[x] != '\u{a4}'
                && with_marker(k)[x] != ')',
        forall|x: int| 0 <= x < with_head(k).len() ==> #[trigger] with_head(k)[x] != ' ',
        with_head(k)[0] == '\u{a4}',
{
    reveal_strlit("Card with");
    reveal_strlit("card with");
    reveal_strlit("Cards with");
    reveal_strlit("cards with");
    reveal_strlit("¤(Cwsn(");
    reveal_strlit("¤(cwsn(");
    reveal_strlit("¤(Cswsn(");
    reveal_strlit("¤(cswsn(");
}

/// A step for one phrase makes no other phrase appear.
proof fn lemma_with_step_keeps_absent(s: Seq<char>, k: WithPhrase, pos: int, k1: WithPhrase)
    requires
        0 <= pos,
        with_step(s, k, pos) is Some,
        find_pat_from(s, with_marker(k1), 0) is None,
    ensures
        find_pat_from(with_step(s, k, pos).unwrap(), with_marker(k1), 0) is None,
{
    let t = with_step(s, k, pos).unwrap();
    let m1 = with_marker(k1);
    let h = with_head(k);
    let w = pos + with_marker(k).len() + 1;
    let j = word_end(s, w).unwrap();
    lemma_word_end(s, w);
    lemma_phrase_chars(k);
    lemma_phrase_chars(k1);
    lemma_with_phrase(k);
    crate::text::lemma_find_pat_from(s, m1, 0);
    crate::text::lemma_find_pat_from(t, m1, 0);
    let mid = h.len() + (j - w) + 2;
    let e = pos + mid;
    let tail = s.subrange(j, s.len() as int);
    assert(t =~= s.subrange(0, pos) + h + s.subrange(w, j) + seq![')', ')'] + tail);
    assert(t.len() == e + tail.len());
    if let Some(i) = find_pat_from(t, m1, 0) {
        let l = m1.len() as int;
        assert(t.subrange(i, i + l) == m1);
        let sp = i + with_space(k1);
        assert(t[sp] == m1[with_space(k1)]);
        if i + l <= pos {
            assert(s.subrange(i, i + l) =~= t.subrange(i, i + l));
            assert(crate::text::occurs_at(s, m1, i));
            assert(false);
        } else if i >= e {
            let i2 = i - e + j;
            assert(s.subrange(i2, i2 + l) =~= t.subrange(i, i + l));
            assert(crate::text::occurs_at(s, m1, i2));
            assert(false);
        } else if sp < pos {
            assert(t[pos] == h[0]);
            assert(t[pos] == m1[pos - i]);
            assert(false);
        } else if sp >= e {
            assert(t[e - 1] == ')');
            assert(t[e - 1] == m1[e - 1 - i]);
            assert(false);
        } else if sp < pos + h.len() {
            assert(t[sp] == h[sp - pos]);
            assert(false);
        } else if sp < pos + h.len() + (j - w) {
            assert(t[sp] == s[sp - pos - h.len() + w]);
            assert(ascii_letter(s[sp - pos - h.len() + w]));
            assert(false);
        } else {
            assert(t[sp] == ')');
            assert(false);
        }
    }
}

/// Turning one phrase into commands makes no other phrase appear.
proof fn lemma_expand_with_keeps_absent(s: Seq<char>, k: WithPhrase, steps: nat, k1: WithPhrase)
    requires
        expand_with_steps(s, k, steps) is Some,
        find_pat_from(s, with_marker(k1), 0) is None,
    ensures
        find_pat_from(expand_with_steps(s, k, steps).unwrap(), with_marker(k1), 0) is None,
    decreases steps,
{
    if let Some(pos) = find_pat_from(s, with_marker(k), 0) {
        crate::text::lemma_find_pat_from(s, with_marker(k), 0);
        let t = with_step(s, k, pos).unwrap();
        lemma_with_step_keeps_absent(s, k, pos, k1);
        lemma_expand_with_keeps_absent(t, k, (steps - 1) as nat, k1);
    }
}

/// Where card text is turned into commands, none of the phrases `Card with`,
/// `card with`, `Cards with` and `cards with` is left.
pub proof fn lemma_phrase_commands_leave_no_phrase(s: Seq<char>)
    requires
        phrase_commands(s) is Some,
    ensures
        find_pat_from(phrase_commands(s).unwrap(), with_marker(WithPhrase::Card), 0) is None,
        find_pat_from(phrase_commands(s).unwrap(), with_marker(WithPhrase::CardLower), 0) is None,
        find_pat_from(phrase_commands(s).unwrap(), with_marker(WithPhrase::Cards), 0) is None,
        find_pat_from(phrase_commands(s).unwrap(), with_marker(WithPhrase::CardsLower), 0) is None,
{
    let f = inject_fixed(s);
    let a = expand_with(f, WithPhrase::Card).unwrap();
    let b = expand_with(a, WithPhrase::CardLower).unwrap();
    let c = expand_with(b, WithPhrase::Cards).unwrap();
    let d = expand_with(c, WithPhrase::CardsLower).unwrap();
    lemma_no_phrase_left(f, WithPhrase::Card, f.len());
    lemma_expand_with_keeps_absent(a, WithPhrase::CardLower, a.len(), WithPhrase::Card);
    lemma_expand_with_keeps_absent(b, WithPhrase::Cards, b.len(), WithPhrase::Card);
    lemma_expand_with_keeps_absent(c, WithPhrase::CardsLower, c.len(), WithPhrase::Card);
    lemma_no_phrase_left(a, WithPhrase::CardLower, a.len());
    lemma_expand_with_keeps_absent(b, WithPhrase::Cards, b.len(), WithPhrase::CardLower);
    lemma_expand_with_keeps_absent(c, WithPhrase::CardsLower, c.len(), WithPhrase::CardLower);
    lemma_no_phrase_left(b, WithPhrase::Cards, b.len());
    lemma_expand_with_keeps_absent(c, WithPhrase::CardsLower, c.len(), WithPhrase::Cards);
    lemma_no_phrase_left(c, WithPhrase::CardsLower, c.len());
}

// ---------------------------------------------------------------------------
// Action properties
// ---------------------------------------------------------------------------

/// The kinds of action whose effect is a cost to pay.
#[derive(Clone, Copy, Debug, PartialEq, Eq)]
pub enum CostKind {
    /// `SUM cost`: summoning.
    Summon,
    /// `EVO cost`: evoking.
    Evoke,
    /// `EQU cost`: equipping.
    Equip,
}

/// The text of an action property, with its costs and modifiers still text.
#[derive(Clone, Debug, PartialEq)]
pub enum ActionText {
    /// An action of one part, which names a cost: the kind, and the part,
    /// trimmed, whose cost starts at its fifth character.
    Cost(CostKind, String),
    /// An action of several parts: its effect (the last two parts, trimmed,
    /// joined by `. `) and, where there are more than three parts, the
    /// attributes (the part before those two, trimmed).
    Effect(String, Option<String>),
}

/// The view of an action property's text.
pub enum ActionTextView {
    Cost(CostKind, Seq<char>),
    Effect(Seq<char>, Option<Seq<char>>),
}

impl View for ActionText {
    type V = ActionTextView;

    open spec fn view(&self) -> ActionTextView {
        match self {
            ActionText::Cost(k, e) => ActionTextView::Cost(*k, e@),
            ActionText::Effect(e, a) => ActionTextView::Effect(
                e@,
                match a {
                    Some(t) => Some(t@),
                    None => None,
                },
            ),
        }
    }
}

/// The cost kind that a part opens with: `SUM `, `EVO ` or `EQU `.
pub open spec fn cost_kind_of(e: Seq<char>) -> Option<CostKind> {
    if e.len() >= 4 && e.take(4) == seq!['S', 'U', 'M', ' '] {
        Some(CostKind::Summon)
    } else if e.len() >= 4 && e.take(4) == seq!['E', 'V', 'O', ' '] {
        Some(CostKind::Evoke)
    } else if e.len() >= 4 && e.take(4) == seq!['E', 'Q', 'U', ' '] {
        Some(CostKind::Equip)
    } else {
        None
    }
}

/// The text of an action property `s`, whose parts are separated by `;`.
/// `None` where reading it fails: a property of one part, or of two parts
/// whose second does not open with a cost kind.
pub open spec fn action_text(s: Seq<char>) -> Option<ActionTextView> {
    let parts = split_on(s, ';');
    let cur = parts.len() - 1;
    if cur <= 0 {
        None
    } else if cur == 1 {
        let e = trim(parts[1]);
        match cost_kind_of(e) {
            Some(k) => Some(ActionTextView::Cost(k, e)),
            None => None,
        }
    } else {
        Some(
            ActionTextView::Effect(
                trim(parts[cur - 1]) + seq!['.', ' '] + trim(parts[cur]),
                if cur == 2 {
                    None
                } else {
                    Some(trim(parts[cur - 2]))
                },
            ),
        )
    }
}

/// Whether `e` opens with the four characters `k`.
fn opens_with(e: &Vec<char>, k: [char; 4]) -> (b: bool)
    ensures
        b == (e.len() >= 4 && e@.take(4) == k@),
{
    if e.len() < 4 {
        return false;
    }
    let b = e[0] == k[0] && e[1] == k[1] && e[2] == k[2] && e[3] == k[3];
    proof {
        if b {
            assert(e@.take(4) =~= k@);
        } else if e@.take(4) == k@ {
            assert(e@.take(4)[0] == k@[0]);
            assert(e@.take(4)[1] == k@[1]);
            assert(e@.take(4)[2] == k@[2]);
            assert(e@.take(4)[3] == k@[3]);
        }
    }
    b
}

/// Reads the text of an action property, or gives `None` where reading it
/// fails.
pub fn parse_action_text(s: &str) -> (r: Option<ActionText>)
    ensures
        match r {
            Some(a) => action_text(s@) == Some(a@),
            None => action_text(s@) is None,
        },
{
    let v = to_chars(s);
    let parts = split_chars(v.as_slice(), ';');
    proof {
        crate::text::lemma_split_on_nonempty(v@, ';');
    }
    let ghost ps = split_on(v@, ';');
    assert(forall|j: int| 0 <= j < parts.len() ==> #[trigger] parts@[j]@ == ps[j]) by {
        assert forall|j: int| 0 <= j < parts.len() implies #[trigger] parts@[j]@ == ps[j] by {
            assert(seqs(parts@)[j] == parts@[j]@);
        }
    }
    let cur = parts.len() - 1;
    if cur == 0 {
        return None;
    }
    if cur == 1 {
        let e = trim_chars(parts[1].as_slice());
        let sum = opens_with(&e, ['S', 'U', 'M', ' ']);
        let evo = opens_with(&e, ['E', 'V', 'O', ' ']);
        let equ = opens_with(&e, ['E', 'Q', 'U', ' ']);
        proof {
            assert(['S', 'U', 'M', ' ']@ =~= seq!['S', 'U', 'M', ' ']);
            assert(['E', 'V', 'O', ' ']@ =~= seq!['E', 'V', 'O', ' ']);
            assert(['E', 'Q', 'U', ' ']@ =~= seq!['E', 'Q', 'U', ' ']);
        }
        let kind = if sum {
            CostKind::Summon
        } else if evo {
            CostKind::Evoke
        } else if equ {
            CostKind::Equip
        } else {
            return None;
        };
        return Some(ActionText::Cost(kind, from_chars(e.as_slice())));
    }
    let mut effect = trim_chars(parts[cur - 1].as_slice());
    effect.push('.');
    effect.push(' ');
    let last = trim_chars(parts[cur].as_slice());
    append_chars(&mut effect, last.as_slice());
    assert(effect@ =~= trim(ps[cur - 1]) + seq!['.', ' '] + trim(ps[cur as int]));
    let attrs = if cur == 2 {
        None
    } else {
        let a = trim_chars(parts[cur - 2].as_slice());
        Some(from_chars(a.as_slice()))
    };
    Some(ActionText::Effect(from_chars(effect.as_slice()), attrs))
}

/// The four characters that open the part of an action of kind `k`.
pub open spec fn cost_code(k: CostKind) -> Seq<char> {
    match k {
        CostKind::Summon => seq!['S', 'U', 'M', ' '],
        CostKind::Evoke => seq!['E', 'V', 'O', ' '],
        CostKind::Equip => seq!['E', 'Q', 'U', ' '],
    }
}

/// The cost kind of an action follows the code its part opens with: an
/// action of two parts whose second part, trimmed, opens with the code of a
/// kind is a cost action of that kind holding that part, and every cost
/// action read is one of these.
pub proof fn lemma_cost_kind_follows_code(s: Seq<char>, k: CostKind)
    ensures
        action_text(s) matches Some(ActionTextView::Cost(k2, e)) ==> split_on(s, ';').len() == 2
            && e == trim(split_on(s, ';')[1]) && e.len() >= 4 && e.take(4) == cost_code(k2),
        split_on(s, ';').len() == 2 && trim(split_on(s, ';')[1]).len() >= 4 && trim(
            split_on(s, ';')[1],
        ).take(4) == cost_code(k) ==> action_text(s) == Some(
            ActionTextView::Cost(k, trim(split_on(s, ';')[1])),
        ),
{
    crate::text::lemma_split_on_nonempty(s, ';');
    let e = trim(split_on(s, ';')[1]);
    if e.len() >= 4 {
        assert(e.take(4)[1] == e[1]);
        assert(e.take(4)[2] == e[2]);
    }
}

/// Every character of `w` is an ASCII letter.
pub open spec fn letters(w: Seq<char>) -> bool {
    forall|j: int| 0 <= j < w.len() ==> ascii_letter(#[trigger] w[j])
}

/// One phrase of kind `k`, a space, a word of letters and a one-byte
/// character that is not a letter become the command naming the word.
proof fn lemma_single_phrase(k: WithPhrase, w: Seq<char>, c: char)
    requires
        letters(w),
        !ascii_letter(c),
        utf8_len(c) == 1,
    ensures
        expand_with(with_marker(k) + seq![' '] + w + seq![c], k) == Some(
            with_head(k) + w + seq![')', ')'] + seq![c],
        ),
{
    let mk = with_marker(k);
    let h = with_head(k);
    let s = mk + seq![' '] + w + seq![c];
    let t = h + w + seq![')', ')'] + seq![c];
    lemma_with_phrase(k);
    lemma_phrase_chars(k);
    let m = mk.len() as int;
    assert(s.subrange(0, m) =~= mk);
    crate::text::lemma_find_pat_from(s, mk, 0);
    assert(find_pat_from(s, mk, 0) == Some(0int));
    let j = m + 1 + w.len();
    lemma_word_end(s, m + 1);
    assert forall|x: int| m + 1 <= x < j implies ascii_letter(#[trigger] s[x]) by {
        assert(s[x] == w[x - m - 1]);
    }
    assert(s[j] == c);
    assert(word_end(s, m + 1) == Some(j)) by {
        lemma_word_end_at(s, m + 1, j);
    }
    assert(s[m] == ' ');
    assert(s.subrange(0, 0) + h + s.subrange(m + 1, j) + seq![')', ')'] + s.subrange(j, s.len() as int)
        =~= t);
    assert(with_step(s, k, 0) == Some(t));
    crate::text::lemma_find_pat_from(t, mk, 0);
    if let Some(i) = find_pat_from(t, mk, 0) {
        let sp = i + with_space(k);
        assert(t.subrange(i, i + mk.len())[with_space(k)] == t[sp]);
        assert(t[sp] == ' ');
        if sp < h.len() {
            assert(t[sp] == h[sp]);
        } else if sp < h.len() + w.len() {
            assert(t[sp] == w[sp - h.len()]);
        } else if sp < h.len() + w.len() + 2 {
            assert(t[sp] == ')');
        }
        assert(false);
    }
    assert(expand_with_steps(t, k, (s.len() - 1) as nat) == Some(t));
}

/// `word_end` finds the first non-letter when every character before it is
/// a letter.
proof fn lemma_word_end_at(s: Seq<char>, from: int, j: int)
    requires
        0 <= from <= j < s.len(),
        !ascii_letter(s[j]),
        forall|x: int| from <= x < j ==> ascii_letter(#[trigger] s[x]),
    ensures
        word_end(s, from) == Some(j),
    decreases j - from,
{
    if from < j {
        lemma_word_end_at(s, from + 1, j);
    }
}

/// Each `card with` phrase becomes the command that names its word: the
/// phrase, a space, a word of letters and a one-byte character that is not a
/// letter give the command's opening, the word, `))` and that character.
pub proof fn lemma_with_phrases_become_commands(w: Seq<char>, c: char)
    requires
        letters(w),
        !ascii_letter(c),
        utf8_len(c) == 1,
    ensures
        expand_with("Card with"@ + seq![' '] + w + seq![c], WithPhrase::Card) == Some(
            "¤(Cwsn("@ + w + seq![')', ')', c],
        ),
        expand_with("card with"@ + seq![' '] + w + seq![c], WithPhrase::CardLower) == Some(
            "¤(cwsn("@ + w + seq![')', ')', c],
        ),
        expand_with("Cards with"@ + seq![' '] + w + seq![c], WithPhrase::Cards) == Some(
            "¤(Cswsn("@ + w + seq![')', ')', c],
        ),
        expand_with("cards with"@ + seq![' '] + w + seq![c], WithPhrase::CardsLower) == Some(
            "¤(cswsn("@ + w + seq![')', ')', c],
        ),
{
    lemma_single_phrase(WithPhrase::Card, w, c);
    lemma_single_phrase(WithPhrase::CardLower, w, c);
    lemma_single_phrase(WithPhrase::Cards, w, c);
    lemma_single_phrase(WithPhrase::CardsLower, w, c);
    assert("¤(Cwsn("@ + w + seq![')', ')'] + seq![c] =~= "¤(Cwsn("@ + w + seq![')', ')', c]);
    assert("¤(cwsn("@ + w + seq![')', ')'] + seq![c] =~= "¤(cwsn("@ + w + seq![')', ')', c]);
    assert("¤(Cswsn("@ + w + seq![')', ')'] + seq![c] =~= "¤(Cswsn("@ + w + seq![')', ')', c]);
    assert("¤(cswsn("@ + w + seq![')', ')'] + seq![c] =~= "¤(cswsn("@ + w + seq![')', ')', c]);
}

// Each fixed phrase, between digits.

/// Between digits, the phrases of group 0 are turned into commands in the middle only.
proof fn lemma_group_framed_0(x: Seq<char>, m: Seq<char>, y: Seq<char>)
    requires
        all_digits(x),
        all_digits(y),
    ensures
        phrase_group_0(x + m + y) == x + phrase_group_0(m) + y,
{
    reveal(phrase_group_0);
    reveal_strlit("  ");
    reveal_strlit(" mana ");
    reveal_strlit("Boost");
    reveal_strlit("Experience");
    reveal_strlit("\n ");
    reveal_strlit("boost");
    reveal_strlit("experience");
    let m0 = m;
    assert(digit_free("\n "@));
    crate::text::lemma_replace_framed(x, m0, y, "\n "@, " "@);
    let m1 = replace_all(m0, "\n "@, " "@);
    assert(digit_free("  "@));
    crate::text::lemma_replace_framed(x, m1, y, "  "@, " "@);
    let m2 = replace_all(m1, "  "@, " "@);
    assert(digit_free("Boost"@));
    crate::text::lemma_replace_framed(x, m2, y, "Boost"@, "¤(Boost)"@);
    let m3 = replace_all(m2, "Boost"@, "¤(Boost)"@);
    assert(digit_free("boost"@));
    crate::text::lemma_replace_framed(x, m3, y, "boost"@, "¤(boost)"@);
    let m4 = replace_all(m3, "boost"@, "¤(boost)"@);
    assert(digit_free("experience"@));
    crate::text::lemma_replace_framed(x, m4, y, "experience"@, "¤(xp)"@);
    let m5 = replace_all(m4, "experience"@, "¤(xp)"@);
    assert(digit_free("Experience"@));
    crate::text::lemma_replace_framed(x, m5, y, "Experience"@, "¤(Xp)"@);
    let m6 = replace_all(m5, "Experience"@, "¤(Xp)"@);
    assert(digit_free(" mana "@));
    crate::text::lemma_replace_framed(x, m6, y, " mana "@, " ¤(mana) "@);
    let m7 = replace_all(m6, " mana "@, " ¤(mana) "@);
}

/// Between digits, the phrases of group 1 are turned into commands in the middle only.
proof fn lemma_group_framed_1(x: Seq<char>, m: Seq<char>, y: Seq<char>)
    requires
        all_digits(x),
        all_digits(y),
    ensures
        phrase_group_1(x + m + y) == x + phrase_group_1(m) + y,
{
    reveal(phrase_group_1);
    reveal_strlit(" Mana ");
    reveal_strlit(" Mana,");
    reveal_strlit(" Mana.");
    reveal_strlit(" mana,");
    reveal_strlit(" mana.");
    reveal_strlit("I'm");
    reveal_strlit("I’m");
    let m0 = m;
    assert(digit_free(" mana."@));
    crate::text::lemma_replace_framed(x, m0, y, " mana."@, " ¤(mana)."@);
    let m1 = replace_all(m0, " mana."@, " ¤(mana)."@);
    assert(digit_free(" mana,"@));
    crate::text::lemma_replace_framed(x, m1, y, " mana,"@, " ¤(mana),"@);
    let m2 = replace_all(m1, " mana,"@, " ¤(mana),"@);
    assert(digit_free(" Mana "@));
    crate::text::lemma_replace_framed(x, m2, y, " Mana "@, " ¤(Mana) "@);
    let m3 = replace_all(m2, " Mana "@, " ¤(Mana) "@);
    assert(digit_free(" Mana."@));
    crate::text::lemma_replace_framed(x, m3, y, " Mana."@, " ¤(Mana)."@);
    let m4 = replace_all(m3, " Mana."@, " ¤(Mana)."@);
    assert(digit_free(" Mana,"@));
    crate::text::lemma_replace_framed(x, m4, y, " Mana,"@, " ¤(Mana),"@);
    let m5 = replace_all(m4, " Mana,"@, " ¤(Mana),"@);
    assert(digit_free("I’m"@));
    crate::text::lemma_replace_framed(x, m5, y, "I’m"@, "I am"@);
    let m6 = replace_all(m5, "I’m"@, "I am"@);
    assert(digit_free("I'm"@));
    crate::text::lemma_replace_framed(x, m6, y, "I'm"@, "I am"@);
    let m7 = replace_all(m6, "I'm"@, "I am"@);
}

/// Between digits, the phrases of group 2 are turned into commands in the middle only.
proof fn lemma_group_framed_2(x: Seq<char>, m: Seq<char>, y: Seq<char>)
    requires
        all_digits(x),
        all_digits(y),
    ensures
        phrase_group_2(x + m + y) == x + phrase_group_2(m) + y,
{
    reveal(phrase_group_2);
    reveal_strlit(" I am ");
    reveal_strlit(" I have");
    reveal_strlit(" me ");
    reveal_strlit(" my ");
    reveal_strlit(". I am ");
    reveal_strlit(". I have");
    reveal_strlit(". My ");
    let m0 = m;
    assert(digit_free(". I am "@));
    crate::text::lemma_replace_framed(x, m0, y, ". I am "@, ". ¤(I am) "@);
    let m1 = replace_all(m0, ". I am "@, ". ¤(I am) "@);
    assert(digit_free(" I am "@));
    crate::text::lemma_replace_framed(x, m1, y, " I am "@, " ¤(i am) "@);
    let m2 = replace_all(m1, " I am "@, " ¤(i am) "@);
    assert(digit_free(" I have"@));
    crate::text::lemma_replace_framed(x, m2, y, " I have"@, " ¤(i have)"@);
    let m3 = replace_all(m2, " I have"@, " ¤(i have)"@);
    assert(digit_free(". I have"@));
    crate::text::lemma_replace_framed(x, m3, y, ". I have"@, " ¤(I have)"@);
    let m4 = replace_all(m3, ". I have"@, " ¤(I have)"@);
    assert(digit_free(" my "@));
    crate::text::lemma_replace_framed(x, m4, y, " my "@, " ¤(my) "@);
    let m5 = replace_all(m4, " my "@, " ¤(my) "@);
    assert(digit_free(". My "@));
    crate::text::lemma_replace_framed(x, m5, y, ". My "@, ". ¤(My) "@);
    let m6 = replace_all(m5, ". My "@, ". ¤(My) "@);
    assert(digit_free(" me "@));
    crate::text::lemma_replace_framed(x, m6, y, " me "@, " ¤(me) "@);
    let m7 = replace_all(m6, " me "@, " ¤(me) "@);
}

/// Between digits, the phrases of group 3 are turned into commands in the middle only.
proof fn lemma_group_framed_3(x: Seq<char>, m: Seq<char>, y: Seq<char>)
    requires
        all_digits(x),
        all_digits(y),
    ensures
        phrase_group_3(x + m + y) == x + phrase_group_3(m) + y,
{
    reveal(phrase_group_3);
    reveal_strlit(" Me ");
    reveal_strlit(" Me,");
    reveal_strlit(" Me.");
    reveal_strlit(" me,");
    reveal_strlit(" me.");
    reveal_strlit(". I ");
    reveal_strlit("\nI ");
    let m0 = m;
    assert(digit_free(" me,"@));
    crate::text::lemma_replace_framed(x, m0, y, " me,"@, " ¤(me),"@);
    let m1 = replace_all(m0, " me,"@, " ¤(me),"@);
    assert(digit_free(" me."@));
    crate::text::lemma_replace_framed(x, m1, y, " me."@, " ¤(me)."@);
    let m2 = replace_all(m1, " me."@, " ¤(me)."@);
    assert(digit_free(" Me "@));
    crate::text::lemma_replace_framed(x, m2, y, " Me "@, " ¤(Me) "@);
    let m3 = replace_all(m2, " Me "@, " ¤(Me) "@);
    assert(digit_free(" Me,"@));
    crate::text::lemma_replace_framed(x, m3, y, " Me,"@, " ¤(Me),"@);
    let m4 = replace_all(m3, " Me,"@, " ¤(Me),"@);
    assert(digit_free(" Me."@));
    crate::text::lemma_replace_framed(x, m4, y, " Me."@, " ¤(Me)."@);
    let m5 = replace_all(m4, " Me."@, " ¤(Me)."@);
    assert(digit_free("\nI "@));
    crate::text::lemma_replace_framed(x, m5, y, "\nI "@, "\n¤(I) "@);
    let m6 = replace_all(m5, "\nI "@, "\n¤(I) "@);
    assert(digit_free(". I "@));
    crate::text::lemma_replace_framed(x, m6, y, ". I "@, ". ¤(I) "@);
    let m7 = replace_all(m6, ". I "@, ". ¤(I) "@);
}

/// Between digits, the phrases of group 4 are turned into commands in the middle only.
proof fn lemma_group_framed_4(x: Seq<char>, m: Seq<char>, y: Seq<char>)
    requires
        all_digits(x),
        all_digits(y),
    ensures
        phrase_group_4(x + m + y) == x + phrase_group_4(m) + y,
{
    reveal(phrase_group_4);
    reveal_strlit(" I ");
    reveal_strlit(" I,");
    reveal_strlit(" I.");
    reveal_strlit(". I,");
    reveal_strlit(". I.");
    reveal_strlit("Cards ¤(I am) attached to");
    reveal_strlit("cards ¤(I am) attached to");
    let m0 = m;
    assert(digit_free(". I,"@));
    crate::text::lemma_replace_framed(x, m0, y, ". I,"@, ". ¤(I),"@);
    let m1 = replace_all(m0, ". I,"@, ". ¤(I),"@);
    assert(digit_free(". I."@));
    crate::text::lemma_replace_framed(x, m1, y, ". I."@, ". ¤(I). "@);
    let m2 = replace_all(m1, ". I."@, ". ¤(I). "@);
    assert(digit_free(" I "@));
    crate::text::lemma_replace_framed(x, m2, y, " I "@, " ¤(i) "@);
    let m3 = replace_all(m2, " I "@, " ¤(i) "@);
    assert(digit_free(" I,"@));
    crate::text::lemma_replace_framed(x, m3, y, " I,"@, " ¤(i),"@);
    let m4 = replace_all(m3, " I,"@, " ¤(i),"@);
    assert(digit_free(" I."@));
    crate::text::lemma_replace_framed(x, m4, y, " I."@, " ¤(i)."@);
    let m5 = replace_all(m4, " I."@, " ¤(i)."@);
    assert(digit_free("Cards ¤(I am) attached to"@));
    crate::text::lemma_replace_framed(x, m5, y, "Cards ¤(I am) attached to"@, "The card ¤(I am) attached to"@);
    let m6 = replace_all(m5, "Cards ¤(I am) attached to"@, "The card ¤(I am) attached to"@);
    assert(digit_free("cards ¤(I am) attached to"@));
    crate::text::lemma_replace_framed(x, m6, y, "cards ¤(I am) attached to"@, "the card ¤(I am) attached to"@);
    let m7 = replace_all(m6, "cards ¤(I am) attached to"@, "the card ¤(I am) attached to"@);
}

/// What group 0 makes of the middle of phrase 0.
proof fn lemma_phrase_0_group_0()
    ensures
        phrase_group_0(seq!['\n', ' ']) == seq![' '],
{
    reveal(phrase_group_0);
    reveal_strlit(" ");
    reveal_strlit("  ");
    reveal_strlit(" mana ");
    reveal_strlit(" ¤(mana) ");
    reveal_strlit("Boost");
    reveal_strlit("Experience");
    reveal_strlit("\n ");
    reveal_strlit("boost");
    reveal_strlit("experience");
    reveal_strlit("¤(Boost)");
    reveal_strlit("¤(Xp)");
    reveal_strlit("¤(boost)");
    reveal_strlit("¤(xp)");
    assert(crate::text::witnessed_until(seq!['\n', ' '], "\n "@, seq![], 0, 0)) by { reveal_with_fuel(crate::text::witnessed_until, 2); }
    assert(crate::text::witnessed(seq!['\n', ' '], "\n "@, seq![0, 0], 2)) by { reveal_with_fuel(crate::text::witnessed, 4); }
    assert(seq!['\n', ' '].subrange(0, 2) =~= "\n "@);
    crate::text::lemma_replace_once(seq!['\n', ' '], "\n "@, " "@, 0, seq![], seq![0, 0]);
    assert(seq!['\n', ' '].subrange(0, 0) + " "@ + seq!['\n', ' '].subrange(2, 2) =~= seq![' ']);
    assert(crate::text::witnessed(seq![' '], "  "@, seq![], 0)) by { reveal_with_fuel(crate::text::witnessed, 2); }
    crate::text::lemma_witnessed_none(seq![' '], "  "@, seq![], 0);
    crate::text::lemma_replace_none(seq![' '], "  "@, " "@);
    assert(crate::text::witnessed(seq![' '], "Boost"@, seq![], 0)) by { reveal_with_fuel(crate::text::witnessed, 2); }
    crate::text::lemma_witnessed_none(seq![' '], "Boost"@, seq![], 0);
    crate::text::lemma_replace_none(seq![' '], "Boost"@, "¤(Boost)"@);
    assert(crate::text::witnessed(seq![' '], "boost"@, seq![], 0)) by { reveal_with_fuel(crate::text::witnessed, 2); }
    crate::text::lemma_witnessed_none(seq![' '], "boost"@, seq![], 0);
    crate::text::lemma_replace_none(seq![' '], "boost"@, "¤(boost)"@);
    assert(crate::text::witnessed(seq![' '], "experience"@, seq![], 0)) by { reveal_with_fuel(crate::text::witnessed, 2); }
    crate::text::lemma_witnessed_none(seq![' '], "experience"@, seq![], 0);
    crate::text::lemma_replace_none(seq![' '], "experience"@, "¤(xp)"@);
    assert(crate::text::witnessed(seq![' '], "Experience"@, seq![], 0)) by { reveal_with_fuel(crate::text::witnessed, 2); }
    crate::text::lemma_witnessed_none(seq![' '], "Experience"@, seq![], 0);
    crate::text::lemma_replace_none(seq![' '], "Experience"@, "¤(Xp)"@);
    assert(crate::text::witnessed(seq![' '], " mana "@, seq![], 0)) by { reveal_with_fuel(crate::text::witnessed, 2); }
    crate::text::lemma_witnessed_none(seq![' '], " mana "@, seq![], 0);
    crate::text::lemma_replace_none(seq![' '], " mana "@, " ¤(mana) "@);
}

/// What group 1 makes of the middle of phrase 0.
proof fn lemma_phrase_0_group_1()
    ensures
        phrase_group_1(seq![' ']) == seq![' '],
{
    reveal(phrase_group_1);
    reveal_strlit(" Mana ");
    reveal_strlit(" Mana,");
    reveal_strlit(" Mana.");
    reveal_strlit(" mana,");
    reveal_strlit(" mana.");
    reveal_strlit(" ¤(Mana) ");
    reveal_strlit(" ¤(Mana),");
    reveal_strlit(" ¤(Mana).");
    reveal_strlit(" ¤(mana),");
    reveal_strlit(" ¤(mana).");
    reveal_strlit("I am");
    reveal_strlit("I'm");
    reveal_strlit("I’m");
    assert(crate::text::witnessed(seq![' '], " mana."@, seq![], 0)) by { reveal_with_fuel(crate::text::witnessed, 2); }
    crate::text::lemma_witnessed_none(seq![' '], " mana."@, seq![], 0);
    crate::text::lemma_replace_none(seq![' '], " mana."@, " ¤(mana)."@);
    assert(crate::text::witnessed(seq![' '], " mana,"@, seq![], 0)) by { reveal_with_fuel(crate::text::witnessed, 2); }
    crate::text::lemma_witnessed_none(seq![' '], " mana,"@, seq![], 0);
    crate::text::lemma_replace_none(seq![' '], " mana,"@, " ¤(mana),"@);
    assert(crate::text::witnessed(seq![' '], " Mana "@, seq![], 0)) by { reveal_with_fuel(crate::text::witnessed, 2); }
    crate::text::lemma_witnessed_none(seq![' '], " Mana "@, seq![], 0);
    crate::text::lemma_replace_none(seq![' '], " Mana "@, " ¤(Mana) "@);
    assert(crate::text::witnessed(seq![' '], " Mana."@, seq![], 0)) by { reveal_with_fuel(crate::text::witnessed, 2); }
    crate::text::lemma_witnessed_none(seq![' '], " Mana."@, seq![], 0);
    crate::text::lemma_replace_none(seq![' '], " Mana."@, " ¤(Mana)."@);
    assert(crate::text::witnessed(seq![' '], " Mana,"@, seq![], 0)) by { reveal_with_fuel(crate::text::witnessed, 2); }
    crate::text::lemma_witnessed_none(seq![' '], " Mana,"@, seq![], 0);
    crate::text::lemma_replace_none(seq![' '], " Mana,"@, " ¤(Mana),"@);
    assert(crate::text::witnessed(seq![' '], "I’m"@, seq![], 0)) by { reveal_with_fuel(crate::text::witnessed, 2); }
    crate::text::lemma_witnessed_none(seq![' '], "I’m"@, seq![], 0);
    crate::text::lemma_replace_none(seq![' '], "I’m"@, "I am"@);
    assert(crate::text::witnessed(seq![' '], "I'm"@, seq![], 0)) by { reveal_with_fuel(crate::text::witnessed, 2); }
    crate::text::lemma_witnessed_none(seq![' '], "I'm"@, seq![], 0);
    crate::text::lemma_replace_none(seq![' '], "I'm"@, "I am"@);
}

/// What group 2 makes of the middle of phrase 0.
proof fn lemma_phrase_0_group_2()
    ensures
        phrase_group_2(seq![' ']) == seq![' '],
{
    reveal(phrase_group_2);
    reveal_strlit(" I am ");
    reveal_strlit(" I have");
    reveal_strlit(" me ");
    reveal_strlit(" my ");
    reveal_strlit(" ¤(I have)");
    reveal_strlit(" ¤(i am) ");
    reveal_strlit(" ¤(i have)");
    reveal_strlit(" ¤(me) ");
    reveal_strlit(" ¤(my) ");
    reveal_strlit(". I am ");
    reveal_strlit(". I have");
    reveal_strlit(". My ");
    reveal_strlit(". ¤(I am) ");
    reveal_strlit(". ¤(My) ");
    assert(crate::text::witnessed(seq![' '], ". I am "@, seq![], 0)) by { reveal_with_fuel(crate::text::witnessed, 2); }
    crate::text::lemma_witnessed_none(seq![' '], ". I am "@, seq![], 0);
    crate::text::lemma_replace_none(seq![' '], ". I am "@, ". ¤(I am) "@);
    assert(crate::text::witnessed(seq![' '], " I am "@, seq![], 0)) by { reveal_with_fuel(crate::text::witnessed, 2); }
    crate::text::lemma_witnessed_none(seq![' '], " I am "@, seq![], 0);
    crate::text::lemma_replace_none(seq![' '], " I am "@, " ¤(i am) "@);
    assert(crate::text::witnessed(seq![' '], " I have"@, seq![], 0)) by { reveal_with_fuel(crate::text::witnessed, 2); }
    crate::text::lemma_witnessed_none(seq![' '], " I have"@, seq![], 0);
    crate::text::lemma_replace_none(seq![' '], " I have"@, " ¤(i have)"@);
    assert(crate::text::witnessed(seq![' '], ". I have"@, seq![], 0)) by { reveal_with_fuel(crate::text::witnessed, 2); }
    crate::text::lemma_witnessed_none(seq![' '], ". I have"@, seq![], 0);
    crate::text::lemma_replace_none(seq![' '], ". I have"@, " ¤(I have)"@);
    assert(crate::text::witnessed(seq![' '], " my "@, seq![], 0)) by { reveal_with_fuel(crate::text::witnessed, 2); }
    crate::text::lemma_witnessed_none(seq![' '], " my "@, seq![], 0);
    crate::text::lemma_replace_none(seq![' '], " my "@, " ¤(my) "@);
    assert(crate::text::witnessed(seq![' '], ". My "@, seq![], 0)) by { reveal_with_fuel(crate::text::witnessed, 2); }
    crate::text::lemma_witnessed_none(seq![' '], ". My "@, seq![], 0);
    crate::text::lemma_replace_none(seq![' '], ". My "@, ". ¤(My) "@);
    assert(crate::text::witnessed(seq![' '], " me "@, seq![], 0)) by { reveal_with_fuel(crate::text::witnessed, 2); }
    crate::text::lemma_witnessed_none(seq![' '], " me "@, seq![], 0);
    crate::text::lemma_replace_none(seq![' '], " me "@, " ¤(me) "@);
}

/// What group 3 makes of the middle of phrase 0.
proof fn lemma_phrase_0_group_3()
    ensures
        phrase_group_3(seq![' ']) == seq![' '],
{
    reveal(phrase_group_3);
    reveal_strlit(" Me ");
    reveal_strlit(" Me,");
    reveal_strlit(" Me.");
    reveal_strlit(" me,");
    reveal_strlit(" me.");
    reveal_strlit(" ¤(Me) ");
    reveal_strlit(" ¤(Me),");
    reveal_strlit(" ¤(Me).");
    reveal_strlit(" ¤(me),");
    reveal_strlit(" ¤(me).");
    reveal_strlit(". I ");
    reveal_strlit(". ¤(I) ");
    reveal_strlit("\nI ");
    reveal_strlit("\n¤(I) ");
    assert(crate::text::witnessed(seq![' '], " me,"@, seq![], 0)) by { reveal_with_fuel(crate::text::witnessed, 2); }
    crate::text::lemma_witnessed_none(seq![' '], " me,"@, seq![], 0);
    crate::text::lemma_replace_none(seq![' '], " me,"@, " ¤(me),"@);
    assert(crate::text::witnessed(seq![' '], " me."@, seq![], 0)) by { reveal_with_fuel(crate::text::witnessed, 2); }
    crate::text::lemma_witnessed_none(seq![' '], " me."@, seq![], 0);
    crate::text::lemma_replace_none(seq![' '], " me."@, " ¤(me)."@);
    assert(crate::text::witnessed(seq![' '], " Me "@, seq![], 0)) by { reveal_with_fuel(crate::text::witnessed, 2); }
    crate::text::lemma_witnessed_none(seq![' '], " Me "@, seq![], 0);
    crate::text::lemma_replace_none(seq![' '], " Me "@, " ¤(Me) "@);
    assert(crate::text::witnessed(seq![' '], " Me,"@, seq![], 0)) by { reveal_with_fuel(crate::text::witnessed, 2); }
    crate::text::lemma_witnessed_none(seq![' '], " Me,"@, seq![], 0);
    crate::text::lemma_replace_none(seq![' '], " Me,"@, " ¤(Me),"@);
    assert(crate::text::witnessed(seq![' '], " Me."@, seq![], 0)) by { reveal_with_fuel(crate::text::witnessed, 2); }
    crate::text::lemma_witnessed_none(seq![' '], " Me."@, seq![], 0);
    crate::text::lemma_replace_none(seq![' '], " Me."@, " ¤(Me)."@);
    assert(crate::text::witnessed(seq![' '], "\nI "@, seq![], 0)) by { reveal_with_fuel(crate::text::witnessed, 2); }
    crate::text::lemma_witnessed_none(seq![' '], "\nI "@, seq![], 0);
    crate::text::lemma_replace_none(seq![' '], "\nI "@, "\n¤(I) "@);
    assert(crate::text::witnessed(seq![' '], ". I "@, seq![], 0)) by { reveal_with_fuel(crate::text::witnessed, 2); }
    crate::text::lemma_witnessed_none(seq![' '], ". I "@, seq![], 0);
    crate::text::lemma_replace_none(seq![' '], ". I "@, ". ¤(I) "@);
}

/// What group 4 makes of the middle of phrase 0.
proof fn lemma_phrase_0_group_4()
    ensures
        phrase_group_4(seq![' ']) == seq![' '],
{
    reveal(phrase_group_4);
    reveal_strlit(" I ");
    reveal_strlit(" I,");
    reveal_strlit(" I.");
    reveal_strlit(" ¤(i) ");
    reveal_strlit(" ¤(i),");
    reveal_strlit(" ¤(i).");
    reveal_strlit(". I,");
    reveal_strlit(". I.");
    reveal_strlit(". ¤(I),");
    reveal_strlit(". ¤(I). ");
    reveal_strlit("Cards ¤(I am) attached to");
    reveal_strlit("The card ¤(I am) attached to");
    reveal_strlit("cards ¤(I am) attached to");
    reveal_strlit("the card ¤(I am) attached to");
    assert(crate::text::witnessed(seq![' '], ". I,"@, seq![], 0)) by { reveal_with_fuel(crate::text::witnessed, 2); }
    crate::text::lemma_witnessed_none(seq![' '], ". I,"@, seq![], 0);
    crate::text::lemma_replace_none(seq![' '], ". I,"@, ". ¤(I),"@);
    assert(crate::text::witnessed(seq![' '], ". I."@, seq![], 0)) by { reveal_with_fuel(crate::text::witnessed, 2); }
    crate::text::lemma_witnessed_none(seq![' '], ". I."@, seq![], 0);
    crate::text::lemma_replace_none(seq![' '], ". I."@, ". ¤(I). "@);
    assert(crate::text::witnessed(seq![' '], " I "@, seq![], 0)) by { reveal_with_fuel(crate::text::witnessed, 2); }
    crate::text::lemma_witnessed_none(seq![' '], " I "@, seq![], 0);
    crate::text::lemma_replace_none(seq![' '], " I "@, " ¤(i) "@);
    assert(crate::text::witnessed(seq![' '], " I,"@, seq![], 0)) by { reveal_with_fuel(crate::text::witnessed, 2); }
    crate::text::lemma_witnessed_none(seq![' '], " I,"@, seq![], 0);
    crate::text::lemma_replace_none(seq![' '], " I,"@, " ¤(i),"@);
    assert(crate::text::witnessed(seq![' '], " I."@, seq![], 0)) by { reveal_with_fuel(crate::text::witnessed, 2); }
    crate::text::lemma_witnessed_none(seq![' '], " I."@, seq![], 0);
    crate::text::lemma_replace_none(seq![' '], " I."@, " ¤(i)."@);
    assert(crate::text::witnessed(seq![' '], "Cards ¤(I am) attached to"@, seq![], 0)) by { reveal_with_fuel(crate::text::witnessed, 2); }
    crate::text::lemma_witnessed_none(seq![' '], "Cards ¤(I am) attached to"@, seq![], 0);
    crate::text::lemma_replace_none(seq![' '], "Cards ¤(I am) attached to"@, "The card ¤(I am) attached to"@);
    assert(crate::text::witnessed(seq![' '], "cards ¤(I am) attached to"@, seq![], 0)) by { reveal_with_fuel(crate::text::witnessed, 2); }
    crate::text::lemma_witnessed_none(seq![' '], "cards ¤(I am) attached to"@, seq![], 0);
    crate::text::lemma_replace_none(seq![' '], "cards ¤(I am) attached to"@, "the card ¤(I am) attached to"@);
}

/// Between digits, phrase 0 becomes what the card text makes of it.
proof fn lemma_phrase_0(x: Seq<char>, y: Seq<char>)
    requires
        all_digits(x),
        all_digits(y),
        trim(x + "\n "@ + y) == x + "\n "@ + y,
    ensures
        phrase_commands(x + "\n "@ + y) == Some(x + seq![' '] + y),
{
    reveal_strlit("\n ");
    assert("\n "@ =~= seq!['\n', ' ']);
    reveal_strlit("Card with");
    reveal_strlit("card with");
    reveal_strlit("Cards with");
    reveal_strlit("cards with");
    let m0 = seq!['\n', ' '];
    lemma_group_framed_0(x, m0, y);
    lemma_phrase_0_group_0();
    let m1 = phrase_group_0(m0);
    lemma_group_framed_1(x, m1, y);
    lemma_phrase_0_group_1();
    let m2 = phrase_group_1(m1);
    lemma_group_framed_2(x, m2, y);
    lemma_phrase_0_group_2();
    let m3 = phrase_group_2(m2);
    lemma_group_framed_3(x, m3, y);
    lemma_phrase_0_group_3();
    let m4 = phrase_group_3(m3);
    lemma_group_framed_4(x, m4, y);
    lemma_phrase_0_group_4();
    let m5 = phrase_group_4(m4);
    assert(crate::text::witnessed(seq![' '], "Card with"@, seq![], 0)) by { reveal_with_fuel(crate::text::witnessed, 2); }
    crate::text::lemma_witnessed_none(seq![' '], "Card with"@, seq![], 0);
    assert(digit_free("Card with"@));
    crate::text::lemma_replace_framed(x, seq![' '], y, "Card with"@, "Card with"@);
    assert(with_marker(WithPhrase::Card) == "Card with"@);
    assert(crate::text::witnessed(seq![' '], "card with"@, seq![], 0)) by { reveal_with_fuel(crate::text::witnessed, 2); }
    crate::text::lemma_witnessed_none(seq![' '], "card with"@, seq![], 0);
    assert(digit_free("card with"@));
    crate::text::lemma_replace_framed(x, seq![' '], y, "card with"@, "card with"@);
    assert(with_marker(WithPhrase::CardLower) == "card with"@);
    assert(crate::text::witnessed(seq![' '], "Cards with"@, seq![], 0)) by { reveal_with_fuel(crate::text::witnessed, 2); }
    crate::text::lemma_witnessed_none(seq![' '], "Cards with"@, seq![], 0);
    assert(digit_free("Cards with"@));
    crate::text::lemma_replace_framed(x, seq![' '], y, "Cards with"@, "Cards with"@);
    assert(with_marker(WithPhrase::Cards) == "Cards with"@);
    assert(crate::text::witnessed(seq![' '], "cards with"@, seq![], 0)) by { reveal_with_fuel(crate::text::witnessed, 2); }
    crate::text::lemma_witnessed_none(seq![' '], "cards with"@, seq![], 0);
    assert(digit_free("cards with"@));
    crate::text::lemma_replace_framed(x, seq![' '], y, "cards with"@, "cards with"@);
    assert(with_marker(WithPhrase::CardsLower) == "cards with"@);
}

/// What group 0 makes of the middle of phrase 1.
proof fn lemma_phrase_1_group_0()
    ensures
        phrase_group_0(seq![' ', ' ']) == seq![' '],
{
    reveal(phrase_group_0);
    reveal_strlit(" ");
    reveal_strlit("  ");
    reveal_strlit(" mana ");
    reveal_strlit(" ¤(mana) ");
    reveal_strlit("Boost");
    reveal_strlit("Experience");
    reveal_strlit("\n ");
    reveal_strlit("boost");
    reveal_strlit("experience");
    reveal_strlit("¤(Boost)");
    reveal_strlit("¤(Xp)");
    reveal_strlit("¤(boost)");
    reveal_strlit("¤(xp)");
    assert(crate::text::witnessed(seq![' ', ' '], "\n "@, seq![0], 0)) by { reveal_with_fuel(crate::text::witnessed, 3); }
    crate::text::lemma_witnessed_none(seq![' ', ' '], "\n "@, seq![0], 0);
    crate::text::lemma_replace_none(seq![' ', ' '], "\n "@, " "@);
    assert(crate::text::witnessed_until(seq![' ', ' '], "  "@, seq![], 0, 0)) by { reveal_with_fuel(crate::text::witnessed_until, 2); }
    assert(crate::text::witnessed(seq![' ', ' '], "  "@, seq![0, 0], 2)) by { reveal_with_fuel(crate::text::witnessed, 4); }
    assert(seq![' ', ' '].subrange(0, 2) =~= "  "@);
    crate::text::lemma_replace_once(seq![' ', ' '], "  "@, " "@, 0, seq![], seq![0, 0]);
    assert(seq![' ', ' '].subrange(0, 0) + " "@ + seq![' ', ' '].subrange(2, 2) =~= seq![' ']);
    assert(crate::text::witnessed(seq![' '], "Boost"@, seq![], 0)) by { reveal_with_fuel(crate::text::witnessed, 2); }
    crate::text::lemma_witnessed_none(seq![' '], "Boost"@, seq![], 0);
    crate::text::lemma_replace_none(seq![' '], "Boost"@, "¤(Boost)"@);
    assert(crate::text::witnessed(seq![' '], "boost"@, seq![], 0)) by { reveal_with_fuel(crate::text::witnessed, 2); }
    crate::text::lemma_witnessed_none(seq![' '], "boost"@, seq![], 0);
    crate::text::lemma_replace_none(seq![' '], "boost"@, "¤(boost)"@);
    assert(crate::text::witnessed(seq![' '], "experience"@, seq![], 0)) by { reveal_with_fuel(crate::text::witnessed, 2); }
    crate::text::lemma_witnessed_none(seq![' '], "experience"@, seq![], 0);
    crate::text::lemma_replace_none(seq![' '], "experience"@, "¤(xp)"@);
    assert(crate::text::witnessed(seq![' '], "Experience"@, seq![], 0)) by { reveal_with_fuel(crate::text::witnessed, 2); }
    crate::text::lemma_witnessed_none(seq![' '], "Experience"@, seq![], 0);
    crate::text::lemma_replace_none(seq![' '], "Experience"@, "¤(Xp)"@);
    assert(crate::text::witnessed(seq![' '], " mana "@, seq![], 0)) by { reveal_with_fuel(crate::text::witnessed, 2); }
    crate::text::lemma_witnessed_none(seq![' '], " mana "@, seq![], 0);
    crate::text::lemma_replace_none(seq![' '], " mana "@, " ¤(mana) "@);
}

/// What group 1 makes of the middle of phrase 1.
proof fn lemma_phrase_1_group_1()
    ensures
        phrase_group_1(seq![' ']) == seq![' '],
{
    reveal(phrase_group_1);
    reveal_strlit(" Mana ");
    reveal_strlit(" Mana,");
    reveal_strlit(" Mana.");
    reveal_strlit(" mana,");
    reveal_strlit(" mana.");
    reveal_strlit(" ¤(Mana) ");
    reveal_strlit(" ¤(Mana),");
    reveal_strlit(" ¤(Mana).");
    reveal_strlit(" ¤(mana),");
    reveal_strlit(" ¤(mana).");
    reveal_strlit("I am");
    reveal_strlit("I'm");
    reveal_strlit("I’m");
    assert(crate::text::witnessed(seq![' '], " mana."@, seq![], 0)) by { reveal_with_fuel(crate::text::witnessed, 2); }
    crate::text::lemma_witnessed_none(seq![' '], " mana."@, seq![], 0);
    crate::text::lemma_replace_none(seq![' '], " mana."@, " ¤(mana)."@);
    assert(crate::text::witnessed(seq![' '], " mana,"@, seq![], 0)) by { reveal_with_fuel(crate::text::witnessed, 2); }
    crate::text::lemma_witnessed_none(seq![' '], " mana,"@, seq![], 0);
    crate::text::lemma_replace_none(seq![' '], " mana,"@, " ¤(mana),"@);
    assert(crate::text::witnessed(seq![' '], " Mana "@, seq![], 0)) by { reveal_with_fuel(crate::text::witnessed, 2); }
    crate::text::lemma_witnessed_none(seq![' '], " Mana "@, seq![], 0);
    crate::text::lemma_replace_none(seq![' '], " Mana "@, " ¤(Mana) "@);
    assert(crate::text::witnessed(seq![' '], " Mana."@, seq![], 0)) by { reveal_with_fuel(crate::text::witnessed, 2); }
    crate::text::lemma_witnessed_none(seq![' '], " Mana."@, seq![], 0);
    crate::text::lemma_replace_none(seq![' '], " Mana."@, " ¤(Mana)."@);
    assert(crate::text::witnessed(seq![' '], " Mana,"@, seq![], 0)) by { reveal_with_fuel(crate::text::witnessed, 2); }
    crate::text::lemma_witnessed_none(seq![' '], " Mana,"@, seq![], 0);
    crate::text::lemma_replace_none(seq![' '], " Mana,"@, " ¤(Mana),"@);
    assert(crate::text::witnessed(seq![' '], "I’m"@, seq![], 0)) by { reveal_with_fuel(crate::text::witnessed, 2); }
    crate::text::lemma_witnessed_none(seq![' '], "I’m"@, seq![], 0);
    crate::text::lemma_replace_none(seq![' '], "I’m"@, "I am"@);
    assert(crate::text::witnessed(seq![' '], "I'm"@, seq![], 0)) by { reveal_with_fuel(crate::text::witnessed, 2); }
    crate::text::lemma_witnessed_none(seq![' '], "I'm"@, seq![], 0);
    crate::text::lemma_replace_none(seq![' '], "I'm"@, "I am"@);
}

/// What group 2 makes of the middle of phrase 1.
proof fn lemma_phrase_1_group_2()
    ensures
        phrase_group_2(seq![' ']) == seq![' '],
{
    reveal(phrase_group_2);
    reveal_strlit(" I am ");
    reveal_strlit(" I have");
    reveal_strlit(" me ");
    reveal_strlit(" my ");
    reveal_strlit(" ¤(I have)");
    reveal_strlit(" ¤(i am) ");
    reveal_strlit(" ¤(i have)");
    reveal_strlit(" ¤(me) ");
    reveal_strlit(" ¤(my) ");
    reveal_strlit(". I am ");
    reveal_strlit(". I have");
    reveal_strlit(". My ");
    reveal_strlit(". ¤(I am) ");
    reveal_strlit(". ¤(My) ");
    assert(crate::text::witnessed(seq![' '], ". I am "@, seq![], 0)) by { reveal_with_fuel(crate::text::witnessed, 2); }
    crate::text::lemma_witnessed_none(seq![' '], ". I am "@, seq![], 0);
    crate::text::lemma_replace_none(seq![' '], ". I am "@, ". ¤(I am) "@);
    assert(crate::text::witnessed(seq![' '], " I am "@, seq![], 0)) by { reveal_with_fuel(crate::text::witnessed, 2); }
    crate::text::lemma_witnessed_none(seq![' '], " I am "@, seq![], 0);
    crate::text::lemma_replace_none(seq![' '], " I am "@, " ¤(i am) "@);
    assert(crate::text::witnessed(seq![' '], " I have"@, seq![], 0)) by { reveal_with_fuel(crate::text::witnessed, 2); }
    crate::text::lemma_witnessed_none(seq![' '], " I have"@, seq![], 0);
    crate::text::lemma_replace_none(seq![' '], " I have"@, " ¤(i have)"@);
    assert(crate::text::witnessed(seq![' '], ". I have"@, seq![], 0)) by { reveal_with_fuel(crate::text::witnessed, 2); }
    crate::text::lemma_witnessed_none(seq![' '], ". I have"@, seq![], 0);
    crate::text::lemma_replace_none(seq![' '], ". I have"@, " ¤(I have)"@);
    assert(crate::text::witnessed(seq![' '], " my "@, seq![], 0)) by { reveal_with_fuel(crate::text::witnessed, 2); }
    crate::text::lemma_witnessed_none(seq![' '], " my "@, seq![], 0);
    crate::text::lemma_replace_none(seq![' '], " my "@, " ¤(my) "@);
    assert(crate::text::witnessed(seq![' '], ". My "@, seq![], 0)) by { reveal_with_fuel(crate::text::witnessed, 2); }
    crate::text::lemma_witnessed_none(seq![' '], ". My "@, seq![], 0);
    crate::text::lemma_replace_none(seq![' '], ". My "@, ". ¤(My) "@);
    assert(crate::text::witnessed(seq![' '], " me "@, seq![], 0)) by { reveal_with_fuel(crate::text::witnessed, 2); }
    crate::text::lemma_witnessed_none(seq![' '], " me "@, seq![], 0);
    crate::text::lemma_replace_none(seq![' '], " me "@, " ¤(me) "@);
}

/// What group 3 makes of the middle of phrase 1.
proof fn lemma_phrase_1_group_3()
    ensures
        phrase_group_3(seq![' ']) == seq![' '],
{
    reveal(phrase_group_3);
    reveal_strlit(" Me ");
    reveal_strlit(" Me,");
    reveal_strlit(" Me.");
    reveal_strlit(" me,");
    reveal_strlit(" me.");
    reveal_strlit(" ¤(Me) ");
    reveal_strlit(" ¤(Me),");
    reveal_strlit(" ¤(Me).");
    reveal_strlit(" ¤(me),");
    reveal_strlit(" ¤(me).");
    reveal_strlit(". I ");
    reveal_strlit(". ¤(I) ");
    reveal_strlit("\nI ");
    reveal_strlit("\n¤(I) ");
    assert(crate::text::witnessed(seq![' '], " me,"@, seq![], 0)) by { reveal_with_fuel(crate::text::witnessed, 2); }
    crate::text::lemma_witnessed_none(seq![' '], " me,"@, seq![], 0);
    crate::text::lemma_replace_none(seq![' '], " me,"@, " ¤(me),"@);
    assert(crate::text::witnessed(seq![' '], " me."@, seq![], 0)) by { reveal_with_fuel(crate::text::witnessed, 2); }
    crate::text::lemma_witnessed_none(seq![' '], " me."@, seq![], 0);
    crate::text::lemma_replace_none(seq![' '], " me."@, " ¤(me)."@);
    assert(crate::text::witnessed(seq![' '], " Me "@, seq![], 0)) by { reveal_with_fuel(crate::text::witnessed, 2); }
    crate::text::lemma_witnessed_none(seq![' '], " Me "@, seq![], 0);
    crate::text::lemma_replace_none(seq![' '], " Me "@, " ¤(Me) "@);
    assert(crate::text::witnessed(seq![' '], " Me,"@, seq![], 0)) by { reveal_with_fuel(crate::text::witnessed, 2); }
    crate::text::lemma_witnessed_none(seq![' '], " Me,"@, seq![], 0);
    crate::text::lemma_replace_none(seq![' '], " Me,"@, " ¤(Me),"@);
    assert(crate::text::witnessed(seq![' '], " Me."@, seq![], 0)) by { reveal_with_fuel(crate::text::witnessed, 2); }
    crate::text::lemma_witnessed_none(seq![' '], " Me."@, seq![], 0);
    crate::text::lemma_replace_none(seq![' '], " Me."@, " ¤(Me)."@);
    assert(crate::text::witnessed(seq![' '], "\nI "@, seq![], 0)) by { reveal_with_fuel(crate::text::witnessed, 2); }
    crate::text::lemma_witnessed_none(seq![' '], "\nI "@, seq![], 0);
    crate::text::lemma_replace_none(seq![' '], "\nI "@, "\n¤(I) "@);
    assert(crate::text::witnessed(seq![' '], ". I "@, seq![], 0)) by { reveal_with_fuel(crate::text::witnessed, 2); }
    crate::text::lemma_witnessed_none(seq![' '], ". I "@, seq![], 0);
    crate::text::lemma_replace_none(seq![' '], ". I "@, ". ¤(I) "@);
}

/// What group 4 makes of the middle of phrase 1.
proof fn lemma_phrase_1_group_4()
    ensures
        phrase_group_4(seq![' ']) == seq![' '],
{
    reveal(phrase_group_4);
    reveal_strlit(" I ");
    reveal_strlit(" I,");
    reveal_strlit(" I.");
    reveal_strlit(" ¤(i) ");
    reveal_strlit(" ¤(i),");
    reveal_strlit(" ¤(i).");
    reveal_strlit(". I,");
    reveal_strlit(". I.");
    reveal_strlit(". ¤(I),");
    reveal_strlit(". ¤(I). ");
    reveal_strlit("Cards ¤(I am) attached to");
    reveal_strlit("The card ¤(I am) attached to");
    reveal_strlit("cards ¤(I am) attached to");
    reveal_strlit("the card ¤(I am) attached to");
    assert(crate::text::witnessed(seq![' '], ". I,"@, seq![], 0)) by { reveal_with_fuel(crate::text::witnessed, 2); }
    crate::text::lemma_witnessed_none(seq![' '], ". I,"@, seq![], 0);
    crate::text::lemma_replace_none(seq![' '], ". I,"@, ". ¤(I),"@);
    assert(crate::text::witnessed(seq![' '], ". I."@, seq![], 0)) by { reveal_with_fuel(crate::text::witnessed, 2); }
    crate::text::lemma_witnessed_none(seq![' '], ". I."@, seq![], 0);
    crate::text::lemma_replace_none(seq![' '], ". I."@, ". ¤(I). "@);
    assert(crate::text::witnessed(seq![' '], " I "@, seq![], 0)) by { reveal_with_fuel(crate::text::witnessed, 2); }
    crate::text::lemma_witnessed_none(seq![' '], " I "@, seq![], 0);
    crate::text::lemma_replace_none(seq![' '], " I "@, " ¤(i) "@);
    assert(crate::text::witnessed(seq![' '], " I,"@, seq![], 0)) by { reveal_with_fuel(crate::text::witnessed, 2); }
    crate::text::lemma_witnessed_none(seq![' '], " I,"@, seq![], 0);
    crate::text::lemma_replace_none(seq![' '], " I,"@, " ¤(i),"@);
    assert(crate::text::witnessed(seq![' '], " I."@, seq![], 0)) by { reveal_with_fuel(crate::text::witnessed, 2); }
    crate::text::lemma_witnessed_none(seq![' '], " I."@, seq![], 0);
    crate::text::lemma_replace_none(seq![' '], " I."@, " ¤(i)."@);
    assert(crate::text::witnessed(seq![' '], "Cards ¤(I am) attached to"@, seq![], 0)) by { reveal_with_fuel(crate::text::witnessed, 2); }
    crate::text::lemma_witnessed_none(seq![' '], "Cards ¤(I am) attached to"@, seq![], 0);
    crate::text::lemma_replace_none(seq![' '], "Cards ¤(I am) attached to"@, "The card ¤(I am) attached to"@);
    assert(crate::text::witnessed(seq![' '], "cards ¤(I am) attached to"@, seq![], 0)) by { reveal_with_fuel(crate::text::witnessed, 2); }
    crate::text::lemma_witnessed_none(seq![' '], "cards ¤(I am) attached to"@, seq![], 0);
    crate::text::lemma_replace_none(seq![' '], "cards ¤(I am) attached to"@, "the card ¤(I am) attached to"@);
}

/// Between digits, phrase 1 becomes what the card text makes of it.
proof fn lemma_phrase_1(x: Seq<char>, y: Seq<char>)
    requires
        all_digits(x),
        all_digits(y),
        trim(x + "  "@ + y) == x + "  "@ + y,
    ensures
        phrase_commands(x + "  "@ + y) == Some(x + seq![' '] + y),
{
    reveal_strlit("  ");
    assert("  "@ =~= seq![' ', ' ']);
    reveal_strlit("Card with");
    reveal_strlit("card with");
    reveal_strlit("Cards with");
    reveal_strlit("cards with");
    let m0 = seq![' ', ' '];
    lemma_group_framed_0(x, m0, y);
    lemma_phrase_1_group_0();
    let m1 = phrase_group_0(m0);
    lemma_group_framed_1(x, m1, y);
    lemma_phrase_1_group_1();
    let m2 = phrase_group_1(m1);
    lemma_group_framed_2(x, m2, y);
    lemma_phrase_1_group_2();
    let m3 = phrase_group_2(m2);
    lemma_group_framed_3(x, m3, y);
    lemma_phrase_1_group_3();
    let m4 = phrase_group_3(m3);
    lemma_group_framed_4(x, m4, y);
    lemma_phrase_1_group_4();
    let m5 = phrase_group_4(m4);
    assert(crate::text::witnessed(seq![' '], "Card with"@, seq![], 0)) by { reveal_with_fuel(crate::text::witnessed, 2); }
    crate::text::lemma_witnessed_none(seq![' '], "Card with"@, seq![], 0);
    assert(digit_free("Card with"@));
    crate::text::lemma_replace_framed(x, seq![' '], y, "Card with"@, "Card with"@);
    assert(with_marker(WithPhrase::Card) == "Card with"@);
    assert(crate::text::witnessed(seq![' '], "card with"@, seq![], 0)) by { reveal_with_fuel(crate::text::witnessed, 2); }
    crate::text::lemma_witnessed_none(seq![' '], "card with"@, seq![], 0);
    assert(digit_free("card with"@));
    crate::text::lemma_replace_framed(x, seq![' '], y, "card with"@, "card with"@);
    assert(with_marker(WithPhrase::CardLower) == "card with"@);
    assert(crate::text::witnessed(seq![' '], "Cards with"@, seq![], 0)) by { reveal_with_fuel(crate::text::witnessed, 2); }
    crate::text::lemma_witnessed_none(seq![' '], "Cards with"@, seq![], 0);
    assert(digit_free("Cards with"@));
    crate::text::lemma_replace_framed(x, seq![' '], y, "Cards with"@, "Cards with"@);
    assert(with_marker(WithPhrase::Cards) == "Cards with"@);
    assert(crate::text::witnessed(seq![' '], "cards with"@, seq![], 0)) by { reveal_with_fuel(crate::text::witnessed, 2); }
    crate::text::lemma_witnessed_none(seq![' '], "cards with"@, seq![], 0);
    assert(digit_free("cards with"@));
    crate::text::lemma_replace_framed(x, seq![' '], y, "cards with"@, "cards with"@);
    assert(with_marker(WithPhrase::CardsLower) == "cards with"@);
}

/// What group 0 makes of the middle of phrase 2.
proof fn lemma_phrase_2_group_0()
    ensures
        phrase_group_0(seq!['B', 'o', 'o', 's', 't']) == seq!['\u{a4}', '(', 'B', 'o', 'o', 's', 't', ')'],
{
    reveal(phrase_group_0);
    reveal_strlit(" ");
    reveal_strlit("  ");
    reveal_strlit(" mana ");
    reveal_strlit(" ¤(mana) ");
    reveal_strlit("Boost");
    reveal_strlit("Experience");
    reveal_strlit("\n ");
    reveal_strlit("boost");
    reveal_strlit("experience");
    reveal_strlit("¤(Boost)");
    reveal_strlit("¤(Xp)");
    reveal_strlit("¤(boost)");
    reveal_strlit("¤(xp)");
    assert(crate::text::witnessed(seq!['B', 'o', 'o', 's', 't'], "\n "@, seq![0, 0, 0, 0], 0)) by { reveal_with_fuel(crate::text::witnessed, 6); }
    crate::text::lemma_witnessed_none(seq!['B', 'o', 'o', 's', 't'], "\n "@, seq![0, 0, 0, 0], 0);
    crate::text::lemma_replace_none(seq!['B', 'o', 'o', 's', 't'], "\n "@, " "@);
    assert(crate::text::witnessed(seq!['B', 'o', 'o', 's', 't'], "  "@, seq![0, 0, 0, 0], 0)) by { reveal_with_fuel(crate::text::witnessed, 6); }
    crate::text::lemma_witnessed_none(seq!['B', 'o', 'o', 's', 't'], "  "@, seq![0, 0, 0, 0], 0);
    crate::text::lemma_replace_none(seq!['B', 'o', 'o', 's', 't'], "  "@, " "@);
    assert(crate::text::witnessed_until(seq!['B', 'o', 'o', 's', 't'], "Boost"@, seq![], 0, 0)) by { reveal_with_fuel(crate::text::witnessed_until, 2); }
    assert(crate::text::witnessed(seq!['B', 'o', 'o', 's', 't'], "Boost"@, seq![0, 0, 0, 0, 0], 5)) by { reveal_with_fuel(crate::text::witnessed, 7); }
    assert(seq!['B', 'o', 'o', 's', 't'].subrange(0, 5) =~= "Boost"@);
    crate::text::lemma_replace_once(seq!['B', 'o', 'o', 's', 't'], "Boost"@, "¤(Boost)"@, 0, seq![], seq![0, 0, 0, 0, 0]);
    assert(seq!['B', 'o', 'o', 's', 't'].subrange(0, 0) + "¤(Boost)"@ + seq!['B', 'o', 'o', 's', 't'].subrange(5, 5) =~= seq!['\u{a4}', '(', 'B', 'o', 'o', 's', 't', ')']);
    assert(crate::text::witnessed(seq!['\u{a4}', '(', 'B', 'o', 'o', 's', 't', ')'], "boost"@, seq![0, 0, 0, 0], 0)) by { reveal_with_fuel(crate::text::witnessed, 6); }
    crate::text::lemma_witnessed_none(seq!['\u{a4}', '(', 'B', 'o', 'o', 's', 't', ')'], "boost"@, seq![0, 0, 0, 0], 0);
    crate::text::lemma_replace_none(seq!['\u{a4}', '(', 'B', 'o', 'o', 's', 't', ')'], "boost"@, "¤(boost)"@);
    assert(crate::text::witnessed(seq!['\u{a4}', '(', 'B', 'o', 'o', 's', 't', ')'], "experience"@, seq![], 0)) by { reveal_with_fuel(crate::text::witnessed, 2); }
    crate::text::lemma_witnessed_none(seq!['\u{a4}', '(', 'B', 'o', 'o', 's', 't', ')'], "experience"@, seq![], 0);
    crate::text::lemma_replace_none(seq!['\u{a4}', '(', 'B', 'o', 'o', 's', 't', ')'], "experience"@, "¤(xp)"@);
    assert(crate::text::witnessed(seq!['\u{a4}', '(', 'B', 'o', 'o', 's', 't', ')'], "Experience"@, seq![], 0)) by { reveal_with_fuel(crate::text::witnessed, 2); }
    crate::text::lemma_witnessed_none(seq!['\u{a4}', '(', 'B', 'o', 'o', 's', 't', ')'], "Experience"@, seq![], 0);
    crate::text::lemma_replace_none(seq!['\u{a4}', '(', 'B', 'o', 'o', 's', 't', ')'], "Experience"@, "¤(Xp)"@);
    assert(crate::text::witnessed(seq!['\u{a4}', '(', 'B', 'o', 'o', 's', 't', ')'], " mana "@, seq![0, 0, 0], 0)) by { reveal_with_fuel(crate::text::witnessed, 5); }
    crate::text::lemma_witnessed_none(seq!['\u{a4}', '(', 'B', 'o', 'o', 's', 't', ')'], " mana "@, seq![0, 0, 0], 0);
    crate::text::lemma_replace_none(seq!['\u{a4}', '(', 'B', 'o', 'o', 's', 't', ')'], " mana "@, " ¤(mana) "@);
}

/// What group 1 makes of the middle of phrase 2.
proof fn lemma_phrase_2_group_1()
    ensures
        phrase_group_1(seq!['\u{a4}', '(', 'B', 'o', 'o', 's', 't', ')']) == seq!['\u{a4}', '(', 'B', 'o', 'o', 's', 't', ')'],
{
    reveal(phrase_group_1);
    reveal_strlit(" Mana ");
    reveal_strlit(" Mana,");
    reveal_strlit(" Mana.");
    reveal_strlit(" mana,");
    reveal_strlit(" mana.");
    reveal_strlit(" ¤(Mana) ");
    reveal_strlit(" ¤(Mana),");
    reveal_strlit(" ¤(Mana).");
    reveal_strlit(" ¤(mana),");
    reveal_strlit(" ¤(mana).");
    reveal_strlit("I am");
    reveal_strlit("I'm");
    reveal_strlit("I’m");
    assert(crate::text::witnessed(seq!['\u{a4}', '(', 'B', 'o', 'o', 's', 't', ')'], " mana."@, seq![0, 0, 0], 0)) by { reveal_with_fuel(crate::text::witnessed, 5); }
    crate::text::lemma_witnessed_none(seq!['\u{a4}', '(', 'B', 'o', 'o', 's', 't', ')'], " mana."@, seq![0, 0, 0], 0);
    crate::text::lemma_replace_none(seq!['\u{a4}', '(', 'B', 'o', 'o', 's', 't', ')'], " mana."@, " ¤(mana)."@);
    assert(crate::text::witnessed(seq!['\u{a4}', '(', 'B', 'o', 'o', 's', 't', ')'], " mana,"@, seq![0, 0, 0], 0)) by { reveal_with_fuel(crate::text::witnessed, 5); }
    crate::text::lemma_witnessed_none(seq!['\u{a4}', '(', 'B', 'o', 'o', 's', 't', ')'], " mana,"@, seq![0, 0, 0], 0);
    crate::text::lemma_replace_none(seq!['\u{a4}', '(', 'B', 'o', 'o', 's', 't', ')'], " mana,"@, " ¤(mana),"@);
    assert(crate::text::witnessed(seq!['\u{a4}', '(', 'B', 'o', 'o', 's', 't', ')'], " Mana "@, seq![0, 0, 0], 0)) by { reveal_with_fuel(crate::text::witnessed, 5); }
    crate::text::lemma_witnessed_none(seq!['\u{a4}', '(', 'B', 'o', 'o', 's', 't', ')'], " Mana "@, seq![0, 0, 0], 0);
    crate::text::lemma_replace_none(seq!['\u{a4}', '(', 'B', 'o', 'o', 's', 't', ')'], " Mana "@, " ¤(Mana) "@);
    assert(crate::text::witnessed(seq!['\u{a4}', '(', 'B', 'o', 'o', 's', 't', ')'], " Mana."@, seq![0, 0, 0], 0)) by { reveal_with_fuel(crate::text::witnessed, 5); }
    crate::text::lemma_witnessed_none(seq!['\u{a4}', '(', 'B', 'o', 'o', 's', 't', ')'], " Mana."@, seq![0, 0, 0], 0);
    crate::text::lemma_replace_none(seq!['\u{a4}', '(', 'B', 'o', 'o', 's', 't', ')'], " Mana."@, " ¤(Mana)."@);
    assert(crate::text::witnessed(seq!['\u{a4}', '(', 'B', 'o', 'o', 's', 't', ')'], " Mana,"@, seq![0, 0, 0], 0)) by { reveal_with_fuel(crate::text::witnessed, 5); }
    crate::text::lemma_witnessed_none(seq!['\u{a4}', '(', 'B', 'o', 'o', 's', 't', ')'], " Mana,"@, seq![0, 0, 0], 0);
    crate::text::lemma_replace_none(seq!['\u{a4}', '(', 'B', 'o', 'o', 's', 't', ')'], " Mana,"@, " ¤(Mana),"@);
    assert(crate::text::witnessed(seq!['\u{a4}', '(', 'B', 'o', 'o', 's', 't', ')'], "I’m"@, seq![0, 0, 0, 0, 0, 0], 0)) by { reveal_with_fuel(crate::text::witnessed, 8); }
    crate::text::lemma_witnessed_none(seq!['\u{a4}', '(', 'B', 'o', 'o', 's', 't', ')'], "I’m"@, seq![0, 0, 0, 0, 0, 0], 0);
    crate::text::lemma_replace_none(seq!['\u{a4}', '(', 'B', 'o', 'o', 's', 't', ')'], "I’m"@, "I am"@);
    assert(crate::text::witnessed(seq!['\u{a4}', '(', 'B', 'o', 'o', 's', 't', ')'], "I'm"@, seq![0, 0, 0, 0, 0, 0], 0)) by { reveal_with_fuel(crate::text::witnessed, 8); }
    crate::text::lemma_witnessed_none(seq!['\u{a4}', '(', 'B', 'o', 'o', 's', 't', ')'], "I'm"@, seq![0, 0, 0, 0, 0, 0], 0);
    crate::text::lemma_replace_none(seq!['\u{a4}', '(', 'B', 'o', 'o', 's', 't', ')'], "I'm"@, "I am"@);
}

/// What group 2 makes of the middle of phrase 2.
proof fn lemma_phrase_2_group_2()
    ensures
        phrase_group_2(seq!['\u{a4}', '(', 'B', 'o', 'o', 's', 't', ')']) == seq!['\u{a4}', '(', 'B', 'o', 'o', 's', 't', ')'],
{
    reveal(phrase_group_2);
    reveal_strlit(" I am ");
    reveal_strlit(" I have");
    reveal_strlit(" me ");
    reveal_strlit(" my ");
    reveal_strlit(" ¤(I have)");
    reveal_strlit(" ¤(i am) ");
    reveal_strlit(" ¤(i have)");
    reveal_strlit(" ¤(me) ");
    reveal_strlit(" ¤(my) ");
    reveal_strlit(". I am ");
    reveal_strlit(". I have");
    reveal_strlit(". My ");
    reveal_strlit(". ¤(I am) ");
    reveal_strlit(". ¤(My) ");
    assert(crate::text::witnessed(seq!['\u{a4}', '(', 'B', 'o', 'o', 's', 't', ')'], ". I am "@, seq![0, 0], 0)) by { reveal_with_fuel(crate::text::witnessed, 4); }
    crate::text::lemma_witnessed_none(seq!['\u{a4}', '(', 'B', 'o', 'o', 's', 't', ')'], ". I am "@, seq![0, 0], 0);
    crate::text::lemma_replace_none(seq!['\u{a4}', '(', 'B', 'o', 'o', 's', 't', ')'], ". I am "@, ". ¤(I am) "@);
    assert(crate::text::witnessed(seq!['\u{a4}', '(', 'B', 'o', 'o', 's', 't', ')'], " I am "@, seq![0, 0, 0], 0)) by { reveal_with_fuel(crate::text::witnessed, 5); }
    crate::text::lemma_witnessed_none(seq!['\u{a4}', '(', 'B', 'o', 'o', 's', 't', ')'], " I am "@, seq![0, 0, 0], 0);
    crate::text::lemma_replace_none(seq!['\u{a4}', '(', 'B', 'o', 'o', 's', 't', ')'], " I am "@, " ¤(i am) "@);
    assert(crate::text::witnessed(seq!['\u{a4}', '(', 'B', 'o', 'o', 's', 't', ')'], " I have"@, seq![0, 0], 0)) by { reveal_with_fuel(crate::text::witnessed, 4); }
    crate::text::lemma_witnessed_none(seq!['\u{a4}', '(', 'B', 'o', 'o', 's', 't', ')'], " I have"@, seq![0, 0], 0);
    crate::text::lemma_replace_none(seq!['\u{a4}', '(', 'B', 'o', 'o', 's', 't', ')'], " I have"@, " ¤(i have)"@);
    assert(crate::text::witnessed(seq!['\u{a4}', '(', 'B', 'o', 'o', 's', 't', ')'], ". I have"@, seq![0], 0)) by { reveal_with_fuel(crate::text::witnessed, 3); }
    crate::text::lemma_witnessed_none(seq!['\u{a4}', '(', 'B', 'o', 'o', 's', 't', ')'], ". I have"@, seq![0], 0);
    crate::text::lemma_replace_none(seq!['\u{a4}', '(', 'B', 'o', 'o', 's', 't', ')'], ". I have"@, " ¤(I have)"@);
    assert(crate::text::witnessed(seq!['\u{a4}', '(', 'B', 'o', 'o', 's', 't', ')'], " my "@, seq![0, 0, 0, 0, 0], 0)) by { reveal_with_fuel(crate::text::witnessed, 7); }
    crate::text::lemma_witnessed_none(seq!['\u{a4}', '(', 'B', 'o', 'o', 's', 't', ')'], " my "@, seq![0, 0, 0, 0, 0], 0);
    crate::text::lemma_replace_none(seq!['\u{a4}', '(', 'B', 'o', 'o', 's', 't', ')'], " my "@, " ¤(my) "@);
    assert(crate::text::witnessed(seq!['\u{a4}', '(', 'B', 'o', 'o', 's', 't', ')'], ". My "@, seq![0, 0, 0, 0], 0)) by { reveal_with_fuel(crate::text::witnessed, 6); }
    crate::text::lemma_witnessed_none(seq!['\u{a4}', '(', 'B', 'o', 'o', 's', 't', ')'], ". My "@, seq![0, 0, 0, 0], 0);
    crate::text::lemma_replace_none(seq!['\u{a4}', '(', 'B', 'o', 'o', 's', 't', ')'], ". My "@, ". ¤(My) "@);
    assert(crate::text::witnessed(seq!['\u{a4}', '(', 'B', 'o', 'o', 's', 't', ')'], " me "@, seq![0, 0, 0, 0, 0], 0)) by { reveal_with_fuel(crate::text::witnessed, 7); }
    crate::text::lemma_witnessed_none(seq!['\u{a4}', '(', 'B', 'o', 'o', 's', 't', ')'], " me "@, seq![0, 0, 0, 0, 0], 0);
    crate::text::lemma_replace_none(seq!['\u{a4}', '(', 'B', 'o', 'o', 's', 't', ')'], " me "@, " ¤(me) "@);
}

/// What group 3 makes of the middle of phrase 2.
proof fn lemma_phrase_2_group_3()
    ensures
        phrase_group_3(seq!['\u{a4}', '(', 'B', 'o', 'o', 's', 't', ')']) == seq!['\u{a4}', '(', 'B', 'o', 'o', 's', 't', ')'],
{
    reveal(phrase_group_3);
    reveal_strlit(" Me ");
    reveal_strlit(" Me,");
    reveal_strlit(" Me.");
    reveal_strlit(" me,");
    reveal_strlit(" me.");
    reveal_strlit(" ¤(Me) ");
    reveal_strlit(" ¤(Me),");
    reveal_strlit(" ¤(Me).");
    reveal_strlit(" ¤(me),");
    reveal_strlit(" ¤(me).");
    reveal_strlit(". I ");
    reveal_strlit(". ¤(I) ");
    reveal_strlit("\nI ");
    reveal_strlit("\n¤(I) ");
    assert(crate::text::witnessed(seq!['\u{a4}', '(', 'B', 'o', 'o', 's', 't', ')'], " me,"@, seq![0, 0, 0, 0, 0], 0)) by { reveal_with_fuel(crate::text::witnessed, 7); }
    crate::text::lemma_witnessed_none(seq!['\u{a4}', '(', 'B', 'o', 'o', 's', 't', ')'], " me,"@, seq![0, 0, 0, 0, 0], 0);
    crate::text::lemma_replace_none(seq!['\u{a4}', '(', 'B', 'o', 'o', 's', 't', ')'], " me,"@, " ¤(me),"@);
    assert(crate::text::witnessed(seq!['\u{a4}', '(', 'B', 'o', 'o', 's', 't', ')'], " me."@, seq![0, 0, 0, 0, 0], 0)) by { reveal_with_fuel(crate::text::witnessed, 7); }
    crate::text::lemma_witnessed_none(seq!['\u{a4}', '(', 'B', 'o', 'o', 's', 't', ')'], " me."@, seq![0, 0, 0, 0, 0], 0);
    crate::text::lemma_replace_none(seq!['\u{a4}', '(', 'B', 'o', 'o', 's', 't', ')'], " me."@, " ¤(me)."@);
    assert(crate::text::witnessed(seq!['\u{a4}', '(', 'B', 'o', 'o', 's', 't', ')'], " Me "@, seq![0, 0, 0, 0, 0], 0)) by { reveal_with_fuel(crate::text::witnessed, 7); }
    crate::text::lemma_witnessed_none(seq!['\u{a4}', '(', 'B', 'o', 'o', 's', 't', ')'], " Me "@, seq![0, 0, 0, 0, 0], 0);
    crate::text::lemma_replace_none(seq!['\u{a4}', '(', 'B', 'o', 'o', 's', 't', ')'], " Me "@, " ¤(Me) "@);
    assert(crate::text::witnessed(seq!['\u{a4}', '(', 'B', 'o', 'o', 's', 't', ')'], " Me,"@, seq![0, 0, 0, 0, 0], 0)) by { reveal_with_fuel(crate::text::witnessed, 7); }
    crate::text::lemma_witnessed_none(seq!['\u{a4}', '(', 'B', 'o', 'o', 's', 't', ')'], " Me,"@, seq![0, 0, 0, 0, 0], 0);
    crate::text::lemma_replace_none(seq!['\u{a4}', '(', 'B', 'o', 'o', 's', 't', ')'], " Me,"@, " ¤(Me),"@);
    assert(crate::text::witnessed(seq!['\u{a4}', '(', 'B', 'o', 'o', 's', 't', ')'], " Me."@, seq![0, 0, 0, 0, 0], 0)) by { reveal_with_fuel(crate::text::witnessed, 7); }
    crate::text::lemma_witnessed_none(seq!['\u{a4}', '(', 'B', 'o', 'o', 's', 't', ')'], " Me."@, seq![0, 0, 0, 0, 0], 0);
    crate::text::lemma_replace_none(seq!['\u{a4}', '(', 'B', 'o', 'o', 's', 't', ')'], " Me."@, " ¤(Me)."@);
    assert(crate::text::witnessed(seq!['\u{a4}', '(', 'B', 'o', 'o', 's', 't', ')'], "\nI "@, seq![0, 0, 0, 0, 0, 0], 0)) by { reveal_with_fuel(crate::text::witnessed, 8); }
    crate::text::lemma_witnessed_none(seq!['\u{a4}', '(', 'B', 'o', 'o', 's', 't', ')'], "\nI "@, seq![0, 0, 0, 0, 0, 0], 0);
    crate::text::lemma_replace_none(seq!['\u{a4}', '(', 'B', 'o', 'o', 's', 't', ')'], "\nI "@, "\n¤(I) "@);
    assert(crate::text::witnessed(seq!['\u{a4}', '(', 'B', 'o', 'o', 's', 't', ')'], ". I "@, seq![0, 0, 0, 0, 0], 0)) by { reveal_with_fuel(crate::text::witnessed, 7); }
    crate::text::lemma_witnessed_none(seq!['\u{a4}', '(', 'B', 'o', 'o', 's', 't', ')'], ". I "@, seq![0, 0, 0, 0, 0], 0);
    crate::text::lemma_replace_none(seq!['\u{a4}', '(', 'B', 'o', 'o', 's', 't', ')'], ". I "@, ". ¤(I) "@);
}

/// What group 4 makes of the middle of phrase 2.
proof fn lemma_phrase_2_group_4()
    ensures
        phrase_group_4(seq!['\u{a4}', '(', 'B', 'o', 'o', 's', 't', ')']) == seq!['\u{a4}', '(', 'B', 'o', 'o', 's', 't', ')'],
{
    reveal(phrase_group_4);
    reveal_strlit(" I ");
    reveal_strlit(" I,");
    reveal_strlit(" I.");
    reveal_strlit(" ¤(i) ");
    reveal_strlit(" ¤(i),");
    reveal_strlit(" ¤(i).");
    reveal_strlit(". I,");
    reveal_strlit(". I.");
    reveal_strlit(". ¤(I),");
    reveal_strlit(". ¤(I). ");
    reveal_strlit("Cards ¤(I am) attached to");
    reveal_strlit("The card ¤(I am) attached to");
    reveal_strlit("cards ¤(I am) attached to");
    reveal_strlit("the card ¤(I am) attached to");
    assert(crate::text::witnessed(seq!['\u{a4}', '(', 'B', 'o', 'o', 's', 't', ')'], ". I,"@, seq![0, 0, 0, 0, 0], 0)) by { reveal_with_fuel(crate::text::witnessed, 7); }
    crate::text::lemma_witnessed_none(seq!['\u{a4}', '(', 'B', 'o', 'o', 's', 't', ')'], ". I,"@, seq![0, 0, 0, 0, 0], 0);
    crate::text::lemma_replace_none(seq!['\u{a4}', '(', 'B', 'o', 'o', 's', 't', ')'], ". I,"@, ". ¤(I),"@);
    assert(crate::text::witnessed(seq!['\u{a4}', '(', 'B', 'o', 'o', 's', 't', ')'], ". I."@, seq![0, 0, 0, 0, 0], 0)) by { reveal_with_fuel(crate::text::witnessed, 7); }
    crate::text::lemma_witnessed_none(seq!['\u{a4}', '(', 'B', 'o', 'o', 's', 't', ')'], ". I."@, seq![0, 0, 0, 0, 0], 0);
    crate::text::lemma_replace_none(seq!['\u{a4}', '(', 'B', 'o', 'o', 's', 't', ')'], ". I."@, ". ¤(I). "@);
    assert(crate::text::witnessed(seq!['\u{a4}', '(', 'B', 'o', 'o', 's', 't', ')'], " I "@, seq![0, 0, 0, 0, 0, 0], 0)) by { reveal_with_fuel(crate::text::witnessed, 8); }
    crate::text::lemma_witnessed_none(seq!['\u{a4}', '(', 'B', 'o', 'o', 's', 't', ')'], " I "@, seq![0, 0, 0, 0, 0, 0], 0);
    crate::text::lemma_replace_none(seq!['\u{a4}', '(', 'B', 'o', 'o', 's', 't', ')'], " I "@, " ¤(i) "@);
    assert(crate::text::witnessed(seq!['\u{a4}', '(', 'B', 'o', 'o', 's', 't', ')'], " I,"@, seq![0, 0, 0, 0, 0, 0], 0)) by { reveal_with_fuel(crate::text::witnessed, 8); }
    crate::text::lemma_witnessed_none(seq!['\u{a4}', '(', 'B', 'o', 'o', 's', 't', ')'], " I,"@, seq![0, 0, 0, 0, 0, 0], 0);
    crate::text::lemma_replace_none(seq!['\u{a4}', '(', 'B', 'o', 'o', 's', 't', ')'], " I,"@, " ¤(i),"@);
    assert(crate::text::witnessed(seq!['\u{a4}', '(', 'B', 'o', 'o', 's', 't', ')'], " I."@, seq![0, 0, 0, 0, 0, 0], 0)) by { reveal_with_fuel(crate::text::witnessed, 8); }
    crate::text::lemma_witnessed_none(seq!['\u{a4}', '(', 'B', 'o', 'o', 's', 't', ')'], " I."@, seq![0, 0, 0, 0, 0, 0], 0);
    crate::text::lemma_replace_none(seq!['\u{a4}', '(', 'B', 'o', 'o', 's', 't', ')'], " I."@, " ¤(i)."@);
    assert(crate::text::witnessed(seq!['\u{a4}', '(', 'B', 'o', 'o', 's', 't', ')'], "Cards ¤(I am) attached to"@, seq![], 0)) by { reveal_with_fuel(crate::text::witnessed, 2); }
    crate::text::lemma_witnessed_none(seq!['\u{a4}', '(', 'B', 'o', 'o', 's', 't', ')'], "Cards ¤(I am) attached to"@, seq![], 0);
    crate::text::lemma_replace_none(seq!['\u{a4}', '(', 'B', 'o', 'o', 's', 't', ')'], "Cards ¤(I am) attached to"@, "The card ¤(I am) attached to"@);
    assert(crate::text::witnessed(seq!['\u{a4}', '(', 'B', 'o', 'o', 's', 't', ')'], "cards ¤(I am) attached to"@, seq![], 0)) by { reveal_with_fuel(crate::text::witnessed, 2); }
    crate::text::lemma_witnessed_none(seq!['\u{a4}', '(', 'B', 'o', 'o', 's', 't', ')'], "cards ¤(I am) attached to"@, seq![], 0);
    crate::text::lemma_replace_none(seq!['\u{a4}', '(', 'B', 'o', 'o', 's', 't', ')'], "cards ¤(I am) attached to"@, "the card ¤(I am) attached to"@);
}

/// Between digits, phrase 2 becomes what the card text makes of it.
proof fn lemma_phrase_2(x: Seq<char>, y: Seq<char>)
    requires
        all_digits(x),
        all_digits(y),
        trim(x + "Boost"@ + y) == x + "Boost"@ + y,
    ensures
        phrase_commands(x + "Boost"@ + y) == Some(x + seq!['\u{a4}', '(', 'B', 'o', 'o', 's', 't', ')'] + y),
{
    reveal_strlit("Boost");
    assert("Boost"@ =~= seq!['B', 'o', 'o', 's', 't']);
    reveal_strlit("Card with");
    reveal_strlit("card with");
    reveal_strlit("Cards with");
    reveal_strlit("cards with");
    let m0 = seq!['B', 'o', 'o', 's', 't'];
    lemma_group_framed_0(x, m0, y);
    lemma_phrase_2_group_0();
    let m1 = phrase_group_0(m0);
    lemma_group_framed_1(x, m1, y);
    lemma_phrase_2_group_1();
    let m2 = phrase_group_1(m1);
    lemma_group_framed_2(x, m2, y);
    lemma_phrase_2_group_2();
    let m3 = phrase_group_2(m2);
    lemma_group_framed_3(x, m3, y);
    lemma_phrase_2_group_3();
    let m4 = phrase_group_3(m3);
    lemma_group_framed_4(x, m4, y);
    lemma_phrase_2_group_4();
    let m5 = phrase_group_4(m4);
    assert(crate::text::witnessed(seq!['\u{a4}', '(', 'B', 'o', 'o', 's', 't', ')'], "Card with"@, seq![], 0)) by { reveal_with_fuel(crate::text::witnessed, 2); }
    crate::text::lemma_witnessed_none(seq!['\u{a4}', '(', 'B', 'o', 'o', 's', 't', ')'], "Card with"@, seq![], 0);
    assert(digit_free("Card with"@));
    crate::text::lemma_replace_framed(x, seq!['\u{a4}', '(', 'B', 'o', 'o', 's', 't', ')'], y, "Card with"@, "Card with"@);
    assert(with_marker(WithPhrase::Card) == "Card with"@);
    assert(crate::text::witnessed(seq!['\u{a4}', '(', 'B', 'o', 'o', 's', 't', ')'], "card with"@, seq![], 0)) by { reveal_with_fuel(crate::text::witnessed, 2); }
    crate::text::lemma_witnessed_none(seq!['\u{a4}', '(', 'B', 'o', 'o', 's', 't', ')'], "card with"@, seq![], 0);
    assert(digit_free("card with"@));
    crate::text::lemma_replace_framed(x, seq!['\u{a4}', '(', 'B', 'o', 'o', 's', 't', ')'], y, "card with"@, "card with"@);
    assert(with_marker(WithPhrase::CardLower) == "card with"@);
    assert(crate::text::witnessed(seq!['\u{a4}', '(', 'B', 'o', 'o', 's', 't', ')'], "Cards with"@, seq![], 0)) by { reveal_with_fuel(crate::text::witnessed, 2); }
    crate::text::lemma_witnessed_none(seq!['\u{a4}', '(', 'B', 'o', 'o', 's', 't', ')'], "Cards with"@, seq![], 0);
    assert(digit_free("Cards with"@));
    crate::text::lemma_replace_framed(x, seq!['\u{a4}', '(', 'B', 'o', 'o', 's', 't', ')'], y, "Cards with"@, "Cards with"@);
    assert(with_marker(WithPhrase::Cards) == "Cards with"@);
    assert(crate::text::witnessed(seq!['\u{a4}', '(', 'B', 'o', 'o', 's', 't', ')'], "cards with"@, seq![], 0)) by { reveal_with_fuel(crate::text::witnessed, 2); }
    crate::text::lemma_witnessed_none(seq!['\u{a4}', '(', 'B', 'o', 'o', 's', 't', ')'], "cards with"@, seq![], 0);
    assert(digit_free("cards with"@));
    crate::text::lemma_replace_framed(x, seq!['\u{a4}', '(', 'B', 'o', 'o', 's', 't', ')'], y, "cards with"@, "cards with"@);
    assert(with_marker(WithPhrase::CardsLower) == "cards with"@);
}

/// What group 0 makes of the middle of phrase 3.
proof fn lemma_phrase_3_group_0()
    ensures
        phrase_group_0(seq!['b', 'o', 'o', 's', 't']) == seq!['\u{a4}', '(', 'b', 'o', 'o', 's', 't', ')'],
{
    reveal(phrase_group_0);
    reveal_strlit(" ");
    reveal_strlit("  ");
    reveal_strlit(" mana ");
    reveal_strlit(" ¤(mana) ");
    reveal_strlit("Boost");
    reveal_strlit("Experience");
    reveal_strlit("\n ");
    reveal_strlit("boost");
    reveal_strlit("experience");
    reveal_strlit("¤(Boost)");
    reveal_strlit("¤(Xp)");
    reveal_strlit("¤(boost)");
    reveal_strlit("¤(xp)");
    assert(crate::text::witnessed(seq!['b', 'o', 'o', 's', 't'], "\n "@, seq![0, 0, 0, 0], 0)) by { reveal_with_fuel(crate::text::witnessed, 6); }
    crate::text::lemma_witnessed_none(seq!['b', 'o', 'o', 's', 't'], "\n "@, seq![0, 0, 0, 0], 0);
    crate::text::lemma_replace_none(seq!['b', 'o', 'o', 's', 't'], "\n "@, " "@);
    assert(crate::text::witnessed(seq!['b', 'o', 'o', 's', 't'], "  "@, seq![0, 0, 0, 0], 0)) by { reveal_with_fuel(crate::text::witnessed, 6); }
    crate::text::lemma_witnessed_none(seq!['b', 'o', 'o', 's', 't'], "  "@, seq![0, 0, 0, 0], 0);
    crate::text::lemma_replace_none(seq!['b', 'o', 'o', 's', 't'], "  "@, " "@);
    assert(crate::text::witnessed(seq!['b', 'o', 'o', 's', 't'], "Boost"@, seq![0], 0)) by { reveal_with_fuel(crate::text::witnessed, 3); }
    crate::text::lemma_witnessed_none(seq!['b', 'o', 'o', 's', 't'], "Boost"@, seq![0], 0);
    crate::text::lemma_replace_none(seq!['b', 'o', 'o', 's', 't'], "Boost"@, "¤(Boost)"@);
    assert(crate::text::witnessed_until(seq!['b', 'o', 'o', 's', 't'], "boost"@, seq![], 0, 0)) by { reveal_with_fuel(crate::text::witnessed_until, 2); }
    assert(crate::text::witnessed(seq!['b', 'o', 'o', 's', 't'], "boost"@, seq![0, 0, 0, 0, 0], 5)) by { reveal_with_fuel(crate::text::witnessed, 7); }
    assert(seq!['b', 'o', 'o', 's', 't'].subrange(0, 5) =~= "boost"@);
    crate::text::lemma_replace_once(seq!['b', 'o', 'o', 's', 't'], "boost"@, "¤(boost)"@, 0, seq![], seq![0, 0, 0, 0, 0]);
    assert(seq!['b', 'o', 'o', 's', 't'].subrange(0, 0) + "¤(boost)"@ + seq!['b', 'o', 'o', 's', 't'].subrange(5, 5) =~= seq!['\u{a4}', '(', 'b', 'o', 'o', 's', 't', ')']);
    assert(crate::text::witnessed(seq!['\u{a4}', '(', 'b', 'o', 'o', 's', 't', ')'], "experience"@, seq![], 0)) by { reveal_with_fuel(crate::text::witnessed, 2); }
    crate::text::lemma_witnessed_none(seq!['\u{a4}', '(', 'b', 'o', 'o', 's', 't', ')'], "experience"@, seq![], 0);
    crate::text::lemma_replace_none(seq!['\u{a4}', '(', 'b', 'o', 'o', 's', 't', ')'], "experience"@, "¤(xp)"@);
    assert(crate::text::witnessed(seq!['\u{a4}', '(', 'b', 'o', 'o', 's', 't', ')'], "Experience"@, seq![], 0)) by { reveal_with_fuel(crate::text::witnessed, 2); }
    crate::text::lemma_witnessed_none(seq!['\u{a4}', '(', 'b', 'o', 'o', 's', 't', ')'], "Experience"@, seq![], 0);
    crate::text::lemma_replace_none(seq!['\u{a4}', '(', 'b', 'o', 'o', 's', 't', ')'], "Experience"@, "¤(Xp)"@);
    assert(crate::text::witnessed(seq!['\u{a4}', '(', 'b', 'o', 'o', 's', 't', ')'], " mana "@, seq![0, 0, 0], 0)) by { reveal_with_fuel(crate::text::witnessed, 5); }
    crate::text::lemma_witnessed_none(seq!['\u{a4}', '(', 'b', 'o', 'o', 's', 't', ')'], " mana "@, seq![0, 0, 0], 0);
    crate::text::lemma_replace_none(seq!['\u{a4}', '(', 'b', 'o', 'o', 's', 't', ')'], " mana "@, " ¤(mana) "@);
}

/// What group 1 makes of the middle of phrase 3.
proof fn lemma_phrase_3_group_1()
    ensures
        phrase_group_1(seq!['\u{a4}', '(', 'b', 'o', 'o', 's', 't', ')']) == seq!['\u{a4}', '(', 'b', 'o', 'o', 's', 't', ')'],
{
    reveal(phrase_group_1);
    reveal_strlit(" Mana ");
    reveal_strlit(" Mana,");
    reveal_strlit(" Mana.");
    reveal_strlit(" mana,");
    reveal_strlit(" mana.");
    reveal_strlit(" ¤(Mana) ");
    reveal_strlit(" ¤(Mana),");
    reveal_strlit(" ¤(Mana).");
    reveal_strlit(" ¤(mana),");
    reveal_strlit(" ¤(mana).");
    reveal_strlit("I am");
    reveal_strlit("I'm");
    reveal_strlit("I’m");
    assert(crate::text::witnessed(seq!['\u{a4}', '(', 'b', 'o', 'o', 's', 't', ')'], " mana."@, seq![0, 0, 0], 0)) by { reveal_with_fuel(crate::text::witnessed, 5); }
    crate::text::lemma_witnessed_none(seq!['\u{a4}', '(', 'b', 'o', 'o', 's', 't', ')'], " mana."@, seq![0, 0, 0], 0);
    crate::text::lemma_replace_none(seq!['\u{a4}', '(', 'b', 'o', 'o', 's', 't', ')'], " mana."@, " ¤(mana)."@);
    assert(crate::text::witnessed(seq!['\u{a4}', '(', 'b', 'o', 'o', 's', 't', ')'], " mana,"@, seq![0, 0, 0], 0)) by { reveal_with_fuel(crate::text::witnessed, 5); }
    crate::text::lemma_witnessed_none(seq!['\u{a4}', '(', 'b', 'o', 'o', 's', 't', ')'], " mana,"@, seq![0, 0, 0], 0);
    crate::text::lemma_replace_none(seq!['\u{a4}', '(', 'b', 'o', 'o', 's', 't', ')'], " mana,"@, " ¤(mana),"@);
    assert(crate::text::witnessed(seq!['\u{a4}', '(', 'b', 'o', 'o', 's', 't', ')'], " Mana "@, seq![0, 0, 0], 0)) by { reveal_with_fuel(crate::text::witnessed, 5); }
    crate::text::lemma_witnessed_none(seq!['\u{a4}', '(', 'b', 'o', 'o', 's', 't', ')'], " Mana "@, seq![0, 0, 0], 0);
    crate::text::lemma_replace_none(seq!['\u{a4}', '(', 'b', 'o', 'o', 's', 't', ')'], " Mana "@, " ¤(Mana) "@);
    assert(crate::text::witnessed(seq!['\u{a4}', '(', 'b', 'o', 'o', 's', 't', ')'], " Mana."@, seq![0, 0, 0], 0)) by { reveal_with_fuel(crate::text::witnessed, 5); }
    crate::text::lemma_witnessed_none(seq!['\u{a4}', '(', 'b', 'o', 'o', 's', 't', ')'], " Mana."@, seq![0, 0, 0], 0);
    crate::text::lemma_replace_none(seq!['\u{a4}', '(', 'b', 'o', 'o', 's', 't', ')'], " Mana."@, " ¤(Mana)."@);
    assert(crate::text::witnessed(seq!['\u{a4}', '(', 'b', 'o', 'o', 's', 't', ')'], " Mana,"@, seq![0, 0, 0], 0)) by { reveal_with_fuel(crate::text::witnessed, 5); }
    crate::text::lemma_witnessed_none(seq!['\u{a4}', '(', 'b', 'o', 'o', 's', 't', ')'], " Mana,"@, seq![0, 0, 0], 0);
    crate::text::lemma_replace_none(seq!['\u{a4}', '(', 'b', 'o', 'o', 's', 't', ')'], " Mana,"@, " ¤(Mana),"@);
    assert(crate::text::witnessed(seq!['\u{a4}', '(', 'b', 'o', 'o', 's', 't', ')'], "I’m"@, seq![0, 0, 0, 0, 0, 0], 0)) by { reveal_with_fuel(crate::text::witnessed, 8); }
    crate::text::lemma_witnessed_none(seq!['\u{a4}', '(', 'b', 'o', 'o', 's', 't', ')'], "I’m"@, seq![0, 0, 0, 0, 0, 0], 0);
    crate::text::lemma_replace_none(seq!['\u{a4}', '(', 'b', 'o', 'o', 's', 't', ')'], "I’m"@, "I am"@);
    assert(crate::text::witnessed(seq!['\u{a4}', '(', 'b', 'o', 'o', 's', 't', ')'], "I'm"@, seq![0, 0, 0, 0, 0, 0], 0)) by { reveal_with_fuel(crate::text::witnessed, 8); }
    crate::text::lemma_witnessed_none(seq!['\u{a4}', '(', 'b', 'o', 'o', 's', 't', ')'], "I'm"@, seq![0, 0, 0, 0, 0, 0], 0);
    crate::text::lemma_replace_none(seq!['\u{a4}', '(', 'b', 'o', 'o', 's', 't', ')'], "I'm"@, "I am"@);
}

/// What group 2 makes of the middle of phrase 3.
proof fn lemma_phrase_3_group_2()
    ensures
        phrase_group_2(seq!['\u{a4}', '(', 'b', 'o', 'o', 's', 't', ')']) == seq!['\u{a4}', '(', 'b', 'o', 'o', 's', 't', ')'],
{
    reveal(phrase_group_2);
    reveal_strlit(" I am ");
    reveal_strlit(" I have");
    reveal_strlit(" me ");
    reveal_strlit(" my ");
    reveal_strlit(" ¤(I have)");
    reveal_strlit(" ¤(i am) ");
    reveal_strlit(" ¤(i have)");
    reveal_strlit(" ¤(me) ");
    reveal_strlit(" ¤(my) ");
    reveal_strlit(". I am ");
    reveal_strlit(". I have");
    reveal_strlit(". My ");
    reveal_strlit(". ¤(I am) ");
    reveal_strlit(". ¤(My) ");
    assert(crate::text::witnessed(seq!['\u{a4}', '(', 'b', 'o', 'o', 's', 't', ')'], ". I am "@, seq![0, 0], 0)) by { reveal_with_fuel(crate::text::witnessed, 4); }
    crate::text::lemma_witnessed_none(seq!['\u{a4}', '(', 'b', 'o', 'o', 's', 't', ')'], ". I am "@, seq![0, 0], 0);
    crate::text::lemma_replace_none(seq!['\u{a4}', '(', 'b', 'o', 'o', 's', 't', ')'], ". I am "@, ". ¤(I am) "@);
    assert(crate::text::witnessed(seq!['\u{a4}', '(', 'b', 'o', 'o', 's', 't', ')'], " I am "@, seq![0, 0, 0], 0)) by { reveal_with_fuel(crate::text::witnessed, 5); }
    crate::text::lemma_witnessed_none(seq!['\u{a4}', '(', 'b', 'o', 'o', 's', 't', ')'], " I am "@, seq![0, 0, 0], 0);
    crate::text::lemma_replace_none(seq!['\u{a4}', '(', 'b', 'o', 'o', 's', 't', ')'], " I am "@, " ¤(i am) "@);
    assert(crate::text::witnessed(seq!['\u{a4}', '(', 'b', 'o', 'o', 's', 't', ')'], " I have"@, seq![0, 0], 0)) by { reveal_with_fuel(crate::text::witnessed, 4); }
    crate::text::lemma_witnessed_none(seq!['\u{a4}', '(', 'b', 'o', 'o', 's', 't', ')'], " I have"@, seq![0, 0], 0);
    crate::text::lemma_replace_none(seq!['\u{a4}', '(', 'b', 'o', 'o', 's', 't', ')'], " I have"@, " ¤(i have)"@);
    assert(crate::text::witnessed(seq!['\u{a4}', '(', 'b', 'o', 'o', 's', 't', ')'], ". I have"@, seq![0], 0)) by { reveal_with_fuel(crate::text::witnessed, 3); }
    crate::text::lemma_witnessed_none(seq!['\u{a4}', '(', 'b', 'o', 'o', 's', 't', ')'], ". I have"@, seq![0], 0);
    crate::text::lemma_replace_none(seq!['\u{a4}', '(', 'b', 'o', 'o', 's', 't', ')'], ". I have"@, " ¤(I have)"@);
    assert(crate::text::witnessed(seq!['\u{a4}', '(', 'b', 'o', 'o', 's', 't', ')'], " my "@, seq![0, 0, 0, 0, 0], 0)) by { reveal_with_fuel(crate::text::witnessed, 7); }
    crate::text::lemma_witnessed_none(seq!['\u{a4}', '(', 'b', 'o', 'o', 's', 't', ')'], " my "@, seq![0, 0, 0, 0, 0], 0);
    crate::text::lemma_replace_none(seq!['\u{a4}', '(', 'b', 'o', 'o', 's', 't', ')'], " my "@, " ¤(my) "@);
    assert(crate::text::witnessed(seq!['\u{a4}', '(', 'b', 'o', 'o', 's', 't', ')'], ". My "@, seq![0, 0, 0, 0], 0)) by { reveal_with_fuel(crate::text::witnessed, 6); }
    crate::text::lemma_witnessed_none(seq!['\u{a4}', '(', 'b', 'o', 'o', 's', 't', ')'], ". My "@, seq![0, 0, 0, 0], 0);
    crate::text::lemma_replace_none(seq!['\u{a4}', '(', 'b', 'o', 'o', 's', 't', ')'], ". My "@, ". ¤(My) "@);
    assert(crate::text::witnessed(seq!['\u{a4}', '(', 'b', 'o', 'o', 's', 't', ')'], " me "@, seq![0, 0, 0, 0, 0], 0)) by { reveal_with_fuel(crate::text::witnessed, 7); }
    crate::text::lemma_witnessed_none(seq!['\u{a4}', '(', 'b', 'o', 'o', 's', 't', ')'], " me "@, seq![0, 0, 0, 0, 0], 0);
    crate::text::lemma_replace_none(seq!['\u{a4}', '(', 'b', 'o', 'o', 's', 't', ')'], " me "@, " ¤(me) "@);
}

/// What group 3 makes of the middle of phrase 3.
proof fn lemma_phrase_3_group_3()
    ensures
        phrase_group_3(seq!['\u{a4}', '(', 'b', 'o', 'o', 's', 't', ')']) == seq!['\u{a4}', '(', 'b', 'o', 'o', 's', 't', ')'],
{
    reveal(phrase_group_3);
    reveal_strlit(" Me ");
    reveal_strlit(" Me,");
    reveal_strlit(" Me.");
    reveal_strlit(" me,");
    reveal_strlit(" me.");
    reveal_strlit(" ¤(Me) ");
    reveal_strlit(" ¤(Me),");
    reveal_strlit(" ¤(Me).");
    reveal_strlit(" ¤(me),");
    reveal_strlit(" ¤(me).");
    reveal_strlit(". I ");
    reveal_strlit(". ¤(I) ");
    reveal_strlit("\nI ");
    reveal_strlit("\n¤(I) ");
    assert(crate::text::witnessed(seq!['\u{a4}', '(', 'b', 'o', 'o', 's', 't', ')'], " me,"@, seq![0, 0, 0, 0, 0], 0)) by { reveal_with_fuel(crate::text::witnessed, 7); }
    crate::text::lemma_witnessed_none(seq!['\u{a4}', '(', 'b', 'o', 'o', 's', 't', ')'], " me,"@, seq![0, 0, 0, 0, 0], 0);
    crate::text::lemma_replace_none(seq!['\u{a4}', '(', 'b', 'o', 'o', 's', 't', ')'], " me,"@, " ¤(me),"@);
    assert(crate::text::witnessed(seq!['\u{a4}', '(', 'b', 'o', 'o', 's', 't', ')'], " me."@, seq![0, 0, 0, 0, 0], 0)) by { reveal_with_fuel(crate::text::witnessed, 7); }
    crate::text::lemma_witnessed_none(seq!['\u{a4}', '(', 'b', 'o', 'o', 's', 't', ')'], " me."@, seq![0, 0, 0, 0, 0], 0);
    crate::text::lemma_replace_none(seq!['\u{a4}', '(', 'b', 'o', 'o', 's', 't', ')'], " me."@, " ¤(me)."@);
    assert(crate::text::witnessed(seq!['\u{a4}', '(', 'b', 'o', 'o', 's', 't', ')'], " Me "@, seq![0, 0, 0, 0, 0], 0)) by { reveal_with_fuel(crate::text::witnessed, 7); }
    crate::text::lemma_witnessed_none(seq!['\u{a4}', '(', 'b', 'o', 'o', 's', 't', ')'], " Me "@, seq![0, 0, 0, 0, 0], 0);
    crate::text::lemma_replace_none(seq!['\u{a4}', '(', 'b', 'o', 'o', 's', 't', ')'], " Me "@, " ¤(Me) "@);
    assert(crate::text::witnessed(seq!['\u{a4}', '(', 'b', 'o', 'o', 's', 't', ')'], " Me,"@, seq![0, 0, 0, 0, 0], 0)) by { reveal_with_fuel(crate::text::witnessed, 7); }
    crate::text::lemma_witnessed_none(seq!['\u{a4}', '(', 'b', 'o', 'o', 's', 't', ')'], " Me,"@, seq![0, 0, 0, 0, 0], 0);
    crate::text::lemma_replace_none(seq!['\u{a4}', '(', 'b', 'o', 'o', 's', 't', ')'], " Me,"@, " ¤(Me),"@);
    assert(crate::text::witnessed(seq!['\u{a4}', '(', 'b', 'o', 'o', 's', 't', ')'], " Me."@, seq![0, 0, 0, 0, 0], 0)) by { reveal_with_fuel(crate::text::witnessed, 7); }
    crate::text::lemma_witnessed_none(seq!['\u{a4}', '(', 'b', 'o', 'o', 's', 't', ')'], " Me."@, seq![0, 0, 0, 0, 0], 0);
    crate::text::lemma_replace_none(seq!['\u{a4}', '(', 'b', 'o', 'o', 's', 't', ')'], " Me."@, " ¤(Me)."@);
    assert(crate::text::witnessed(seq!['\u{a4}', '(', 'b', 'o', 'o', 's', 't', ')'], "\nI "@, seq![0, 0, 0, 0, 0, 0], 0)) by { reveal_with_fuel(crate::text::witnessed, 8); }
    crate::text::lemma_witnessed_none(seq!['\u{a4}', '(', 'b', 'o', 'o', 's', 't', ')'], "\nI "@, seq![0, 0, 0, 0, 0, 0], 0);
    crate::text::lemma_replace_none(seq!['\u{a4}', '(', 'b', 'o', 'o', 's', 't', ')'], "\nI "@, "\n¤(I) "@);
    assert(crate::text::witnessed(seq!['\u{a4}', '(', 'b', 'o', 'o', 's', 't', ')'], ". I "@, seq![0, 0, 0, 0, 0], 0)) by { reveal_with_fuel(crate::text::witnessed, 7); }
    crate::text::lemma_witnessed_none(seq!['\u{a4}', '(', 'b', 'o', 'o', 's', 't', ')'], ". I "@, seq![0, 0, 0, 0, 0], 0);
    crate::text::lemma_replace_none(seq!['\u{a4}', '(', 'b', 'o', 'o', 's', 't', ')'], ". I "@, ". ¤(I) "@);
}

/// What group 4 makes of the middle of phrase 3.
proof fn lemma_phrase_3_group_4()
    ensures
        phrase_group_4(seq!['\u{a4}', '(', 'b', 'o', 'o', 's', 't', ')']) == seq!['\u{a4}', '(', 'b', 'o', 'o', 's', 't', ')'],
{
    reveal(phrase_group_4);
    reveal_strlit(" I ");
    reveal_strlit(" I,");
    reveal_strlit(" I.");
    reveal_strlit(" ¤(i) ");
    reveal_strlit(" ¤(i),");
    reveal_strlit(" ¤(i).");
    reveal_strlit(". I,");
    reveal_strlit(". I.");
    reveal_strlit(". ¤(I),");
    reveal_strlit(". ¤(I). ");
    reveal_strlit("Cards ¤(I am) attached to");
    reveal_strlit("The card ¤(I am) attached to");
    reveal_strlit("cards ¤(I am) attached to");
    reveal_strlit("the card ¤(I am) attached to");
    assert(crate::text::witnessed(seq!['\u{a4}', '(', 'b', 'o', 'o', 's', 't', ')'], ". I,"@, seq![0, 0, 0, 0, 0], 0)) by { reveal_with_fuel(crate::text::witnessed, 7); }
    crate::text::lemma_witnessed_none(seq!['\u{a4}', '(', 'b', 'o', 'o', 's', 't', ')'], ". I,"@, seq![0, 0, 0, 0, 0], 0);
    crate::text::lemma_replace_none(seq!['\u{a4}', '(', 'b', 'o', 'o', 's', 't', ')'], ". I,"@, ". ¤(I),"@);
    assert(crate::text::witnessed(seq!['\u{a4}', '(', 'b', 'o', 'o', 's', 't', ')'], ". I."@, seq![0, 0, 0, 0, 0], 0)) by { reveal_with_fuel(crate::text::witnessed, 7); }
    crate::text::lemma_witnessed_none(seq!['\u{a4}', '(', 'b', 'o', 'o', 's', 't', ')'], ". I."@, seq![0, 0, 0, 0, 0], 0);
    crate::text::lemma_replace_none(seq!['\u{a4}', '(', 'b', 'o', 'o', 's', 't', ')'], ". I."@, ". ¤(I). "@);
    assert(crate::text::witnessed(seq!['\u{a4}', '(', 'b', 'o', 'o', 's', 't', ')'], " I "@, seq![0, 0, 0, 0, 0, 0], 0)) by { reveal_with_fuel(crate::text::witnessed, 8); }
    crate::text::lemma_witnessed_none(seq!['\u{a4}', '(', 'b', 'o', 'o', 's', 't', ')'], " I "@, seq![0, 0, 0, 0, 0, 0], 0);
    crate::text::lemma_replace_none(seq!['\u{a4}', '(', 'b', 'o', 'o', 's', 't', ')'], " I "@, " ¤(i) "@);
    assert(crate::text::witnessed(seq!['\u{a4}', '(', 'b', 'o', 'o', 's', 't', ')'], " I,"@, seq![0, 0, 0, 0, 0, 0], 0)) by { reveal_with_fuel(crate::text::witnessed, 8); }
    crate::text::lemma_witnessed_none(seq!['\u{a4}', '(', 'b', 'o', 'o', 's', 't', ')'], " I,"@, seq![0, 0, 0, 0, 0, 0], 0);
    crate::text::lemma_replace_none(seq!['\u{a4}', '(', 'b', 'o', 'o', 's', 't', ')'], " I,"@, " ¤(i),"@);
    assert(crate::text::witnessed(seq!['\u{a4}', '(', 'b', 'o', 'o', 's', 't', ')'], " I."@, seq![0, 0, 0, 0, 0, 0], 0)) by { reveal_with_fuel(crate::text::witnessed, 8); }
    crate::text::lemma_witnessed_none(seq!['\u{a4}', '(', 'b', 'o', 'o', 's', 't', ')'], " I."@, seq![0, 0, 0, 0, 0, 0], 0);
    crate::text::lemma_replace_none(seq!['\u{a4}', '(', 'b', 'o', 'o', 's', 't', ')'], " I."@, " ¤(i)."@);
    assert(crate::text::witnessed(seq!['\u{a4}', '(', 'b', 'o', 'o', 's', 't', ')'], "Cards ¤(I am) attached to"@, seq![], 0)) by { reveal_with_fuel(crate::text::witnessed, 2); }
    crate::text::lemma_witnessed_none(seq!['\u{a4}', '(', 'b', 'o', 'o', 's', 't', ')'], "Cards ¤(I am) attached to"@, seq![], 0);
    crate::text::lemma_replace_none(seq!['\u{a4}', '(', 'b', 'o', 'o', 's', 't', ')'], "Cards ¤(I am) attached to"@, "The card ¤(I am) attached to"@);
    assert(crate::text::witnessed(seq!['\u{a4}', '(', 'b', 'o', 'o', 's', 't', ')'], "cards ¤(I am) attached to"@, seq![], 0)) by { reveal_with_fuel(crate::text::witnessed, 2); }
    crate::text::lemma_witnessed_none(seq!['\u{a4}', '(', 'b', 'o', 'o', 's', 't', ')'], "cards ¤(I am) attached to"@, seq![], 0);
    crate::text::lemma_replace_none(seq!['\u{a4}', '(', 'b', 'o', 'o', 's', 't', ')'], "cards ¤(I am) attached to"@, "the card ¤(I am) attached to"@);
}

/// Between digits, phrase 3 becomes what the card text makes of it.
proof fn lemma_phrase_3(x: Seq<char>, y: Seq<char>)
    requires
        all_digits(x),
        all_digits(y),
        trim(x + "boost"@ + y) == x + "boost"@ + y,
    ensures
        phrase_commands(x + "boost"@ + y) == Some(x + seq!['\u{a4}', '(', 'b', 'o', 'o', 's', 't', ')'] + y),
{
    reveal_strlit("boost");
    assert("boost"@ =~= seq!['b', 'o', 'o', 's', 't']);
    reveal_strlit("Card with");
    reveal_strlit("card with");
    reveal_strlit("Cards with");
    reveal_strlit("cards with");
    let m0 = seq!['b', 'o', 'o', 's', 't'];
    lemma_group_framed_0(x, m0, y);
    lemma_phrase_3_group_0();
    let m1 = phrase_group_0(m0);
    lemma_group_framed_1(x, m1, y);
    lemma_phrase_3_group_1();
    let m2 = phrase_group_1(m1);
    lemma_group_framed_2(x, m2, y);
    lemma_phrase_3_group_2();
    let m3 = phrase_group_2(m2);
    lemma_group_framed_3(x, m3, y);
    lemma_phrase_3_group_3();
    let m4 = phrase_group_3(m3);
    lemma_group_framed_4(x, m4, y);
    lemma_phrase_3_group_4();
    let m5 = phrase_group_4(m4);
    assert(crate::text::witnessed(seq!['\u{a4}', '(', 'b', 'o', 'o', 's', 't', ')'], "Card with"@, seq![], 0)) by { reveal_with_fuel(crate::text::witnessed, 2); }
    crate::text::lemma_witnessed_none(seq!['\u{a4}', '(', 'b', 'o', 'o', 's', 't', ')'], "Card with"@, seq![], 0);
    assert(digit_free("Card with"@));
    crate::text::lemma_replace_framed(x, seq!['\u{a4}', '(', 'b', 'o', 'o', 's', 't', ')'], y, "Card with"@, "Card with"@);
    assert(with_marker(WithPhrase::Card) == "Card with"@);
    assert(crate::text::witnessed(seq!['\u{a4}', '(', 'b', 'o', 'o', 's', 't', ')'], "card with"@, seq![], 0)) by { reveal_with_fuel(crate::text::witnessed, 2); }
    crate::text::lemma_witnessed_none(seq!['\u{a4}', '(', 'b', 'o', 'o', 's', 't', ')'], "card with"@, seq![], 0);
    assert(digit_free("card with"@));
    crate::text::lemma_replace_framed(x, seq!['\u{a4}', '(', 'b', 'o', 'o', 's', 't', ')'], y, "card with"@, "card with"@);
    assert(with_marker(WithPhrase::CardLower) == "card with"@);
    assert(crate::text::witnessed(seq!['\u{a4}', '(', 'b', 'o', 'o', 's', 't', ')'], "Cards with"@, seq![], 0)) by { reveal_with_fuel(crate::text::witnessed, 2); }
    crate::text::lemma_witnessed_none(seq!['\u{a4}', '(', 'b', 'o', 'o', 's', 't', ')'], "Cards with"@, seq![], 0);
    assert(digit_free("Cards with"@));
    crate::text::lemma_replace_framed(x, seq!['\u{a4}', '(', 'b', 'o', 'o', 's', 't', ')'], y, "Cards with"@, "Cards with"@);
    assert(with_marker(WithPhrase::Cards) == "Cards with"@);
    assert(crate::text::witnessed(seq!['\u{a4}', '(', 'b', 'o', 'o', 's', 't', ')'], "cards with"@, seq![], 0)) by { reveal_with_fuel(crate::text::witnessed, 2); }
    crate::text::lemma_witnessed_none(seq!['\u{a4}', '(', 'b', 'o', 'o', 's', 't', ')'], "cards with"@, seq![], 0);
    assert(digit_free("cards with"@));
    crate::text::lemma_replace_framed(x, seq!['\u{a4}', '(', 'b', 'o', 'o', 's', 't', ')'], y, "cards with"@, "cards with"@);
    assert(with_marker(WithPhrase::CardsLower) == "cards with"@);
}

/// What group 0 makes of the middle of phrase 4.
proof fn lemma_phrase_4_group_0()
    ensures
        phrase_group_0(seq!['e', 'x', 'p', 'e', 'r', 'i', 'e', 'n', 'c', 'e']) == seq!['\u{a4}', '(', 'x', 'p', ')'],
{
    reveal(phrase_group_0);
    reveal_strlit(" ");
    reveal_strlit("  ");
    reveal_strlit(" mana ");
    reveal_strlit(" ¤(mana) ");
    reveal_strlit("Boost");
    reveal_strlit("Experience");
    reveal_strlit("\n ");
    reveal_strlit("boost");
    reveal_strlit("experience");
    reveal_strlit("¤(Boost)");
    reveal_strlit("¤(Xp)");
    reveal_strlit("¤(boost)");
    reveal_strlit("¤(xp)");
    assert(crate::text::witnessed(seq!['e', 'x', 'p', 'e', 'r', 'i', 'e', 'n', 'c', 'e'], "\n "@, seq![0, 0, 0, 0, 0, 0, 0, 0, 0], 0)) by { reveal_with_fuel(crate::text::witnessed, 11); }
    crate::text::lemma_witnessed_none(seq!['e', 'x', 'p', 'e', 'r', 'i', 'e', 'n', 'c', 'e'], "\n "@, seq![0, 0, 0, 0, 0, 0, 0, 0, 0], 0);
    crate::text::lemma_replace_none(seq!['e', 'x', 'p', 'e', 'r', 'i', 'e', 'n', 'c', 'e'], "\n "@, " "@);
    assert(crate::text::witnessed(seq!['e', 'x', 'p', 'e', 'r', 'i', 'e', 'n', 'c', 'e'], "  "@, seq![0, 0, 0, 0, 0, 0, 0, 0, 0], 0)) by { reveal_with_fuel(crate::text::witnessed, 11); }
    crate::text::lemma_witnessed_none(seq!['e', 'x', 'p', 'e', 'r', 'i', 'e', 'n', 'c', 'e'], "  "@, seq![0, 0, 0, 0, 0, 0, 0, 0, 0], 0);
    crate::text::lemma_replace_none(seq!['e', 'x', 'p', 'e', 'r', 'i', 'e', 'n', 'c', 'e'], "  "@, " "@);
    assert(crate::text::witnessed(seq!['e', 'x', 'p', 'e', 'r', 'i', 'e', 'n', 'c', 'e'], "Boost"@, seq![0, 0, 0, 0, 0, 0], 0)) by { reveal_with_fuel(crate::text::witnessed, 8); }
    crate::text::lemma_witnessed_none(seq!['e', 'x', 'p', 'e', 'r', 'i', 'e', 'n', 'c', 'e'], "Boost"@, seq![0, 0, 0, 0, 0, 0], 0);
    crate::text::lemma_replace_none(seq!['e', 'x', 'p', 'e', 'r', 'i', 'e', 'n', 'c', 'e'], "Boost"@, "¤(Boost)"@);
    assert(crate::text::witnessed(seq!['e', 'x', 'p', 'e', 'r', 'i', 'e', 'n', 'c', 'e'], "boost"@, seq![0, 0, 0, 0, 0, 0], 0)) by { reveal_with_fuel(crate::text::witnessed, 8); }
    crate::text::lemma_witnessed_none(seq!['e', 'x', 'p', 'e', 'r', 'i', 'e', 'n', 'c', 'e'], "boost"@, seq![0, 0, 0, 0, 0, 0], 0);
    crate::text::lemma_replace_none(seq!['e', 'x', 'p', 'e', 'r', 'i', 'e', 'n', 'c', 'e'], "boost"@, "¤(boost)"@);
    assert(crate::text::witnessed_until(seq!['e', 'x', 'p', 'e', 'r', 'i', 'e', 'n', 'c', 'e'], "experience"@, seq![], 0, 0)) by { reveal_with_fuel(crate::text::witnessed_until, 2); }
    assert(crate::text::witnessed(seq!['e', 'x', 'p', 'e', 'r', 'i', 'e', 'n', 'c', 'e'], "experience"@, seq![0, 0, 0, 0, 0, 0, 0, 0, 0, 0], 10)) by { reveal_with_fuel(crate::text::witnessed, 12); }
    assert(seq!['e', 'x', 'p', 'e', 'r', 'i', 'e', 'n', 'c', 'e'].subrange(0, 10) =~= "experience"@);
    crate::text::lemma_replace_once(seq!['e', 'x', 'p', 'e', 'r', 'i', 'e', 'n', 'c', 'e'], "experience"@, "¤(xp)"@, 0, seq![], seq![0, 0, 0, 0, 0, 0, 0, 0, 0, 0]);
    assert(seq!['e', 'x', 'p', 'e', 'r', 'i', 'e', 'n', 'c', 'e'].subrange(0, 0) + "¤(xp)"@ + seq!['e', 'x', 'p', 'e', 'r', 'i', 'e', 'n', 'c', 'e'].subrange(10, 10) =~= seq!['\u{a4}', '(', 'x', 'p', ')']);
    assert(crate::text::witnessed(seq!['\u{a4}', '(', 'x', 'p', ')'], "Experience"@, seq![], 0)) by { reveal_with_fuel(crate::text::witnessed, 2); }
    crate::text::lemma_witnessed_none(seq!['\u{a4}', '(', 'x', 'p', ')'], "Experience"@, seq![], 0);
    crate::text::lemma_replace_none(seq!['\u{a4}', '(', 'x', 'p', ')'], "Experience"@, "¤(Xp)"@);
    assert(crate::text::witnessed(seq!['\u{a4}', '(', 'x', 'p', ')'], " mana "@, seq![], 0)) by { reveal_with_fuel(crate::text::witnessed, 2); }
    crate::text::lemma_witnessed_none(seq!['\u{a4}', '(', 'x', 'p', ')'], " mana "@, seq![], 0);
    crate::text::lemma_replace_none(seq!['\u{a4}', '(', 'x', 'p', ')'], " mana "@, " ¤(mana) "@);
}

/// What group 1 makes of the middle of phrase 4.
proof fn lemma_phrase_4_group_1()
    ensures
        phrase_group_1(seq!['\u{a4}', '(', 'x', 'p', ')']) == seq!['\u{a4}', '(', 'x', 'p', ')'],
{
    reveal(phrase_group_1);
    reveal_strlit(" Mana ");
    reveal_strlit(" Mana,");
    reveal_strlit(" Mana.");
    reveal_strlit(" mana,");
    reveal_strlit(" mana.");
    reveal_strlit(" ¤(Mana) ");
    reveal_strlit(" ¤(Mana),");
    reveal_strlit(" ¤(Mana).");
    reveal_strlit(" ¤(mana),");
    reveal_strlit(" ¤(mana).");
    reveal_strlit("I am");
    reveal_strlit("I'm");
    reveal_strlit("I’m");
    assert(crate::text::witnessed(seq!['\u{a4}', '(', 'x', 'p', ')'], " mana."@, seq![], 0)) by { reveal_with_fuel(crate::text::witnessed, 2); }
    crate::text::lemma_witnessed_none(seq!['\u{a4}', '(', 'x', 'p', ')'], " mana."@, seq![], 0);
    crate::text::lemma_replace_none(seq!['\u{a4}', '(', 'x', 'p', ')'], " mana."@, " ¤(mana)."@);
    assert(crate::text::witnessed(seq!['\u{a4}', '(', 'x', 'p', ')'], " mana,"@, seq![], 0)) by { reveal_with_fuel(crate::text::witnessed, 2); }
    crate::text::lemma_witnessed_none(seq!['\u{a4}', '(', 'x', 'p', ')'], " mana,"@, seq![], 0);
    crate::text::lemma_replace_none(seq!['\u{a4}', '(', 'x', 'p', ')'], " mana,"@, " ¤(mana),"@);
    assert(crate::text::witnessed(seq!['\u{a4}', '(', 'x', 'p', ')'], " Mana "@, seq![], 0)) by { reveal_with_fuel(crate::text::witnessed, 2); }
    crate::text::lemma_witnessed_none(seq!['\u{a4}', '(', 'x', 'p', ')'], " Mana "@, seq![], 0);
    crate::text::lemma_replace_none(seq!['\u{a4}', '(', 'x', 'p', ')'], " Mana "@, " ¤(Mana) "@);
    assert(crate::text::witnessed(seq!['\u{a4}', '(', 'x', 'p', ')'], " Mana."@, seq![], 0)) by { reveal_with_fuel(crate::text::witnessed, 2); }
    crate::text::lemma_witnessed_none(seq!['\u{a4}', '(', 'x', 'p', ')'], " Mana."@, seq![], 0);
    crate::text::lemma_replace_none(seq!['\u{a4}', '(', 'x', 'p', ')'], " Mana."@, " ¤(Mana)."@);
    assert(crate::text::witnessed(seq!['\u{a4}', '(', 'x', 'p', ')'], " Mana,"@, seq![], 0)) by { reveal_with_fuel(crate::text::witnessed, 2); }
    crate::text::lemma_witnessed_none(seq!['\u{a4}', '(', 'x', 'p', ')'], " Mana,"@, seq![], 0);
    crate::text::lemma_replace_none(seq!['\u{a4}', '(', 'x', 'p', ')'], " Mana,"@, " ¤(Mana),"@);
    assert(crate::text::witnessed(seq!['\u{a4}', '(', 'x', 'p', ')'], "I’m"@, seq![0, 0, 0], 0)) by { reveal_with_fuel(crate::text::witnessed, 5); }
    crate::text::lemma_witnessed_none(seq!['\u{a4}', '(', 'x', 'p', ')'], "I’m"@, seq![0, 0, 0], 0);
    crate::text::lemma_replace_none(seq!['\u{a4}', '(', 'x', 'p', ')'], "I’m"@, "I am"@);
    assert(crate::text::witnessed(seq!['\u{a4}', '(', 'x', 'p', ')'], "I'm"@, seq![0, 0, 0], 0)) by { reveal_with_fuel(crate::text::witnessed, 5); }
    crate::text::lemma_witnessed_none(seq!['\u{a4}', '(', 'x', 'p', ')'], "I'm"@, seq![0, 0, 0], 0);
    crate::text::lemma_replace_none(seq!['\u{a4}', '(', 'x', 'p', ')'], "I'm"@, "I am"@);
}

/// What group 2 makes of the middle of phrase 4.
proof fn lemma_phrase_4_group_2()
    ensures
        phrase_group_2(seq!['\u{a4}', '(', 'x', 'p', ')']) == seq!['\u{a4}', '(', 'x', 'p', ')'],
{
    reveal(phrase_group_2);
    reveal_strlit(" I am ");
    reveal_strlit(" I have");
    reveal_strlit(" me ");
    reveal_strlit(" my ");
    reveal_strlit(" ¤(I have)");
    reveal_strlit(" ¤(i am) ");
    reveal_strlit(" ¤(i have)");
    reveal_strlit(" ¤(me) ");
    reveal_strlit(" ¤(my) ");
    reveal_strlit(". I am ");
    reveal_strlit(". I have");
    reveal_strlit(". My ");
    reveal_strlit(". ¤(I am) ");
    reveal_strlit(". ¤(My) ");
    assert(crate::text::witnessed(seq!['\u{a4}', '(', 'x', 'p', ')'], ". I am "@, seq![], 0)) by { reveal_with_fuel(crate::text::witnessed, 2); }
    crate::text::lemma_witnessed_none(seq!['\u{a4}', '(', 'x', 'p', ')'], ". I am "@, seq![], 0);
    crate::text::lemma_replace_none(seq!['\u{a4}', '(', 'x', 'p', ')'], ". I am "@, ". ¤(I am) "@);
    assert(crate::text::witnessed(seq!['\u{a4}', '(', 'x', 'p', ')'], " I am "@, seq![], 0)) by { reveal_with_fuel(crate::text::witnessed, 2); }
    crate::text::lemma_witnessed_none(seq!['\u{a4}', '(', 'x', 'p', ')'], " I am "@, seq![], 0);
    crate::text::lemma_replace_none(seq!['\u{a4}', '(', 'x', 'p', ')'], " I am "@, " ¤(i am) "@);
    assert(crate::text::witnessed(seq!['\u{a4}', '(', 'x', 'p', ')'], " I have"@, seq![], 0)) by { reveal_with_fuel(crate::text::witnessed, 2); }
    crate::text::lemma_witnessed_none(seq!['\u{a4}', '(', 'x', 'p', ')'], " I have"@, seq![], 0);
    crate::text::lemma_replace_none(seq!['\u{a4}', '(', 'x', 'p', ')'], " I have"@, " ¤(i have)"@);
    assert(crate::text::witnessed(seq!['\u{a4}', '(', 'x', 'p', ')'], ". I have"@, seq![], 0)) by { reveal_with_fuel(crate::text::witnessed, 2); }
    crate::text::lemma_witnessed_none(seq!['\u{a4}', '(', 'x', 'p', ')'], ". I have"@, seq![], 0);
    crate::text::lemma_replace_none(seq!['\u{a4}', '(', 'x', 'p', ')'], ". I have"@, " ¤(I have)"@);
    assert(crate::text::witnessed(seq!['\u{a4}', '(', 'x', 'p', ')'], " my "@, seq![0, 0], 0)) by { reveal_with_fuel(crate::text::witnessed, 4); }
    crate::text::lemma_witnessed_none(seq!['\u{a4}', '(', 'x', 'p', ')'], " my "@, seq![0, 0], 0);
    crate::text::lemma_replace_none(seq!['\u{a4}', '(', 'x', 'p', ')'], " my "@, " ¤(my) "@);
    assert(crate::text::witnessed(seq!['\u{a4}', '(', 'x', 'p', ')'], ". My "@, seq![0], 0)) by { reveal_with_fuel(crate::text::witnessed, 3); }
    crate::text::lemma_witnessed_none(seq!['\u{a4}', '(', 'x', 'p', ')'], ". My "@, seq![0], 0);
    crate::text::lemma_replace_none(seq!['\u{a4}', '(', 'x', 'p', ')'], ". My "@, ". ¤(My) "@);
    assert(crate::text::witnessed(seq!['\u{a4}', '(', 'x', 'p', ')'], " me "@, seq![0, 0], 0)) by { reveal_with_fuel(crate::text::witnessed, 4); }
    crate::text::lemma_witnessed_none(seq!['\u{a4}', '(', 'x', 'p', ')'], " me "@, seq![0, 0], 0);
    crate::text::lemma_replace_none(seq!['\u{a4}', '(', 'x', 'p', ')'], " me "@, " ¤(me) "@);
}

/// What group 3 makes of the middle of phrase 4.
proof fn lemma_phrase_4_group_3()
    ensures
        phrase_group_3(seq!['\u{a4}', '(', 'x', 'p', ')']) == seq!['\u{a4}', '(', 'x', 'p', ')'],
{
    reveal(phrase_group_3);
    reveal_strlit(" Me ");
    reveal_strlit(" Me,");
    reveal_strlit(" Me.");
    reveal_strlit(" me,");
    reveal_strlit(" me.");
    reveal_strlit(" ¤(Me) ");
    reveal_strlit(" ¤(Me),");
    reveal_strlit(" ¤(Me).");
    reveal_strlit(" ¤(me),");
    reveal_strlit(" ¤(me).");
    reveal_strlit(". I ");
    reveal_strlit(". ¤(I) ");
    reveal_strlit("\nI ");
    reveal_strlit("\n¤(I) ");
    assert(crate::text::witnessed(seq!['\u{a4}', '(', 'x', 'p', ')'], " me,"@, seq![0, 0], 0)) by { reveal_with_fuel(crate::text::witnessed, 4); }
    crate::text::lemma_witnessed_none(seq!['\u{a4}', '(', 'x', 'p', ')'], " me,"@, seq![0, 0], 0);
    crate::text::lemma_replace_none(seq!['\u{a4}', '(', 'x', 'p', ')'], " me,"@, " ¤(me),"@);
    assert(crate::text::witnessed(seq!['\u{a4}', '(', 'x', 'p', ')'], " me."@, seq![0, 0], 0)) by { reveal_with_fuel(crate::text::witnessed, 4); }
    crate::text::lemma_witnessed_none(seq!['\u{a4}', '(', 'x', 'p', ')'], " me."@, seq![0, 0], 0);
    crate::text::lemma_replace_none(seq!['\u{a4}', '(', 'x', 'p', ')'], " me."@, " ¤(me)."@);
    assert(crate::text::witnessed(seq!['\u{a4}', '(', 'x', 'p', ')'], " Me "@, seq![0, 0], 0)) by { reveal_with_fuel(crate::text::witnessed, 4); }
    crate::text::lemma_witnessed_none(seq!['\u{a4}', '(', 'x', 'p', ')'], " Me "@, seq![0, 0], 0);
    crate::text::lemma_replace_none(seq!['\u{a4}', '(', 'x', 'p', ')'], " Me "@, " ¤(Me) "@);
    assert(crate::text::witnessed(seq!['\u{a4}', '(', 'x', 'p', ')'], " Me,"@, seq![0, 0], 0)) by { reveal_with_fuel(crate::text::witnessed, 4); }
    crate::text::lemma_witnessed_none(seq!['\u{a4}', '(', 'x', 'p', ')'], " Me,"@, seq![0, 0], 0);
    crate::text::lemma_replace_none(seq!['\u{a4}', '(', 'x', 'p', ')'], " Me,"@, " ¤(Me),"@);
    assert(crate::text::witnessed(seq!['\u{a4}', '(', 'x', 'p', ')'], " Me."@, seq![0, 0], 0)) by { reveal_with_fuel(crate::text::witnessed, 4); }
    crate::text::lemma_witnessed_none(seq!['\u{a4}', '(', 'x', 'p', ')'], " Me."@, seq![0, 0], 0);
    crate::text::lemma_replace_none(seq!['\u{a4}', '(', 'x', 'p', ')'], " Me."@, " ¤(Me)."@);
    assert(crate::text::witnessed(seq!['\u{a4}', '(', 'x', 'p', ')'], "\nI "@, seq![0, 0, 0], 0)) by { reveal_with_fuel(crate::text::witnessed, 5); }
    crate::text::lemma_witnessed_none(seq!['\u{a4}', '(', 'x', 'p', ')'], "\nI "@, seq![0, 0, 0], 0);
    crate::text::lemma_replace_none(seq!['\u{a4}', '(', 'x', 'p', ')'], "\nI "@, "\n¤(I) "@);
    assert(crate::text::witnessed(seq!['\u{a4}', '(', 'x', 'p', ')'], ". I "@, seq![0, 0], 0)) by { reveal_with_fuel(crate::text::witnessed, 4); }
    crate::text::lemma_witnessed_none(seq!['\u{a4}', '(', 'x', 'p', ')'], ". I "@, seq![0, 0], 0);
    crate::text::lemma_replace_none(seq!['\u{a4}', '(', 'x', 'p', ')'], ". I "@, ". ¤(I) "@);
}

/// What group 4 makes of the middle of phrase 4.
proof fn lemma_phrase_4_group_4()
    ensures
        phrase_group_4(seq!['\u{a4}', '(', 'x', 'p', ')']) == seq!['\u{a4}', '(', 'x', 'p', ')'],
{
    reveal(phrase_group_4);
    reveal_strlit(" I ");
    reveal_strlit(" I,");
    reveal_strlit(" I.");
    reveal_strlit(" ¤(i) ");
    reveal_strlit(" ¤(i),");
    reveal_strlit(" ¤(i).");
    reveal_strlit(". I,");
    reveal_strlit(". I.");
    reveal_strlit(". ¤(I),");
    reveal_strlit(". ¤(I). ");
    reveal_strlit("Cards ¤(I am) attached to");
    reveal_strlit("The card ¤(I am) attached to");
    reveal_strlit("cards ¤(I am) attached to");
    reveal_strlit("the card ¤(I am) attached to");
    assert(crate::text::witnessed(seq!['\u{a4}', '(', 'x', 'p', ')'], ". I,"@, seq![0, 0], 0)) by { reveal_with_fuel(crate::text::witnessed, 4); }
    crate::text::lemma_witnessed_none(seq!['\u{a4}', '(', 'x', 'p', ')'], ". I,"@, seq![0, 0], 0);
    crate::text::lemma_replace_none(seq!['\u{a4}', '(', 'x', 'p', ')'], ". I,"@, ". ¤(I),"@);
    assert(crate::text::witnessed(seq!['\u{a4}', '(', 'x', 'p', ')'], ". I."@, seq![0, 0], 0)) by { reveal_with_fuel(crate::text::witnessed, 4); }
    crate::text::lemma_witnessed_none(seq!['\u{a4}', '(', 'x', 'p', ')'], ". I."@, seq![0, 0], 0);
    crate::text::lemma_replace_none(seq!['\u{a4}', '(', 'x', 'p', ')'], ". I."@, ". ¤(I). "@);
    assert(crate::text::witnessed(seq!['\u{a4}', '(', 'x', 'p', ')'], " I "@, seq![0, 0, 0], 0)) by { reveal_with_fuel(crate::text::witnessed, 5); }
    crate::text::lemma_witnessed_none(seq!['\u{a4}', '(', 'x', 'p', ')'], " I "@, seq![0, 0, 0], 0);
    crate::text::lemma_replace_none(seq!['\u{a4}', '(', 'x', 'p', ')'], " I "@, " ¤(i) "@);
    assert(crate::text::witnessed(seq!['\u{a4}', '(', 'x', 'p', ')'], " I,"@, seq![0, 0, 0], 0)) by { reveal_with_fuel(crate::text::witnessed, 5); }
    crate::text::lemma_witnessed_none(seq!['\u{a4}', '(', 'x', 'p', ')'], " I,"@, seq![0, 0, 0], 0);
    crate::text::lemma_replace_none(seq!['\u{a4}', '(', 'x', 'p', ')'], " I,"@, " ¤(i),"@);
    assert(crate::text::witnessed(seq!['\u{a4}', '(', 'x', 'p', ')'], " I."@, seq![0, 0, 0], 0)) by { reveal_with_fuel(crate::text::witnessed, 5); }
    crate::text::lemma_witnessed_none(seq!['\u{a4}', '(', 'x', 'p', ')'], " I."@, seq![0, 0, 0], 0);
    crate::text::lemma_replace_none(seq!['\u{a4}', '(', 'x', 'p', ')'], " I."@, " ¤(i)."@);
    assert(crate::text::witnessed(seq!['\u{a4}', '(', 'x', 'p', ')'], "Cards ¤(I am) attached to"@, seq![], 0)) by { reveal_with_fuel(crate::text::witnessed, 2); }
    crate::text::lemma_witnessed_none(seq!['\u{a4}', '(', 'x', 'p', ')'], "Cards ¤(I am) attached to"@, seq![], 0);
    crate::text::lemma_replace_none(seq!['\u{a4}', '(', 'x', 'p', ')'], "Cards ¤(I am) attached to"@, "The card ¤(I am) attached to"@);
    assert(crate::text::witnessed(seq!['\u{a4}', '(', 'x', 'p', ')'], "cards ¤(I am) attached to"@, seq![], 0)) by { reveal_with_fuel(crate::text::witnessed, 2); }
    crate::text::lemma_witnessed_none(seq!['\u{a4}', '(', 'x', 'p', ')'], "cards ¤(I am) attached to"@, seq![], 0);
    crate::text::lemma_replace_none(seq!['\u{a4}', '(', 'x', 'p', ')'], "cards ¤(I am) attached to"@, "the card ¤(I am) attached to"@);
}

/// Between digits, phrase 4 becomes what the card text makes of it.
proof fn lemma_phrase_4(x: Seq<char>, y: Seq<char>)
    requires
        all_digits(x),
        all_digits(y),
        trim(x + "experience"@ + y) == x + "experience"@ + y,
    ensures
        phrase_commands(x + "experience"@ + y) == Some(x + seq!['\u{a4}', '(', 'x', 'p', ')'] + y),
{
    reveal_strlit("experience");
    assert("experience"@ =~= seq!['e', 'x', 'p', 'e', 'r', 'i', 'e', 'n', 'c', 'e']);
    reveal_strlit("Card with");
    reveal_strlit("card with");
    reveal_strlit("Cards with");
    reveal_strlit("cards with");
    let m0 = seq!['e', 'x', 'p', 'e', 'r', 'i', 'e', 'n', 'c', 'e'];
    lemma_group_framed_0(x, m0, y);
    lemma_phrase_4_group_0();
    let m1 = phrase_group_0(m0);
    lemma_group_framed_1(x, m1, y);
    lemma_phrase_4_group_1();
    let m2 = phrase_group_1(m1);
    lemma_group_framed_2(x, m2, y);
    lemma_phrase_4_group_2();
    let m3 = phrase_group_2(m2);
    lemma_group_framed_3(x, m3, y);
    lemma_phrase_4_group_3();
    let m4 = phrase_group_3(m3);
    lemma_group_framed_4(x, m4, y);
    lemma_phrase_4_group_4();
    let m5 = phrase_group_4(m4);
    assert(crate::text::witnessed(seq!['\u{a4}', '(', 'x', 'p', ')'], "Card with"@, seq![], 0)) by { reveal_with_fuel(crate::text::witnessed, 2); }
    crate::text::lemma_witnessed_none(seq!['\u{a4}', '(', 'x', 'p', ')'], "Card with"@, seq![], 0);
    assert(digit_free("Card with"@));
    crate::text::lemma_replace_framed(x, seq!['\u{a4}', '(', 'x', 'p', ')'], y, "Card with"@, "Card with"@);
    assert(with_marker(WithPhrase::Card) == "Card with"@);
    assert(crate::text::witnessed(seq!['\u{a4}', '(', 'x', 'p', ')'], "card with"@, seq![], 0)) by { reveal_with_fuel(crate::text::witnessed, 2); }
    crate::text::lemma_witnessed_none(seq!['\u{a4}', '(', 'x', 'p', ')'], "card with"@, seq![], 0);
    assert(digit_free("card with"@));
    crate::text::lemma_replace_framed(x, seq!['\u{a4}', '(', 'x', 'p', ')'], y, "card with"@, "card with"@);
    assert(with_marker(WithPhrase::CardLower) == "card with"@);
    assert(crate::text::witnessed(seq!['\u{a4}', '(', 'x', 'p', ')'], "Cards with"@, seq![], 0)) by { reveal_with_fuel(crate::text::witnessed, 2); }
    crate::text::lemma_witnessed_none(seq!['\u{a4}', '(', 'x', 'p', ')'], "Cards with"@, seq![], 0);
    assert(digit_free("Cards with"@));
    crate::text::lemma_replace_framed(x, seq!['\u{a4}', '(', 'x', 'p', ')'], y, "Cards with"@, "Cards with"@);
    assert(with_marker(WithPhrase::Cards) == "Cards with"@);
    assert(crate::text::witnessed(seq!['\u{a4}', '(', 'x', 'p', ')'], "cards with"@, seq![], 0)) by { reveal_with_fuel(crate::text::witnessed, 2); }
    crate::text::lemma_witnessed_none(seq!['\u{a4}', '(', 'x', 'p', ')'], "cards with"@, seq![], 0);
    assert(digit_free("cards with"@));
    crate::text::lemma_replace_framed(x, seq!['\u{a4}', '(', 'x', 'p', ')'], y, "cards with"@, "cards with"@);
    assert(with_marker(WithPhrase::CardsLower) == "cards with"@);
}

/// What group 0 makes of the middle of phrase 5.
proof fn lemma_phrase_5_group_0()
    ensures
        phrase_group_0(seq!['E', 'x', 'p', 'e', 'r', 'i', 'e', 'n', 'c', 'e']) == seq!['\u{a4}', '(', 'X', 'p', ')'],
{
    reveal(phrase_group_0);
    reveal_strlit(" ");
    reveal_strlit("  ");
    reveal_strlit(" mana ");
    reveal_strlit(" ¤(mana) ");
    reveal_strlit("Boost");
    reveal_strlit("Experience");
    reveal_strlit("\n ");
    reveal_strlit("boost");
    reveal_strlit("experience");
    reveal_strlit("¤(Boost)");
    reveal_strlit("¤(Xp)");
    reveal_strlit("¤(boost)");
    reveal_strlit("¤(xp)");
    assert(crate::text::witnessed(seq!['E', 'x', 'p', 'e', 'r', 'i', 'e', 'n', 'c', 'e'], "\n "@, seq![0, 0, 0, 0, 0, 0, 0, 0, 0], 0)) by { reveal_with_fuel(crate::text::witnessed, 11); }
    crate::text::lemma_witnessed_none(seq!['E', 'x', 'p', 'e', 'r', 'i', 'e', 'n', 'c', 'e'], "\n "@, seq![0, 0, 0, 0, 0, 0, 0, 0, 0], 0);
    crate::text::lemma_replace_none(seq!['E', 'x', 'p', 'e', 'r', 'i', 'e', 'n', 'c', 'e'], "\n "@, " "@);
    assert(crate::text::witnessed(seq!['E', 'x', 'p', 'e', 'r', 'i', 'e', 'n', 'c', 'e'], "  "@, seq![0, 0, 0, 0, 0, 0, 0, 0, 0], 0)) by { reveal_with_fuel(crate::text::witnessed, 11); }
    crate::text::lemma_witnessed_none(seq!['E', 'x', 'p', 'e', 'r', 'i', 'e', 'n', 'c', 'e'], "  "@, seq![0, 0, 0, 0, 0, 0, 0, 0, 0], 0);
    crate::text::lemma_replace_none(seq!['E', 'x', 'p', 'e', 'r', 'i', 'e', 'n', 'c', 'e'], "  "@, " "@);
    assert(crate::text::witnessed(seq!['E', 'x', 'p', 'e', 'r', 'i', 'e', 'n', 'c', 'e'], "Boost"@, seq![0, 0, 0, 0, 0, 0], 0)) by { reveal_with_fuel(crate::text::witnessed, 8); }
    crate::text::lemma_witnessed_none(seq!['E', 'x', 'p', 'e', 'r', 'i', 'e', 'n', 'c', 'e'], "Boost"@, seq![0, 0, 0, 0, 0, 0], 0);
    crate::text::lemma_replace_none(seq!['E', 'x', 'p', 'e', 'r', 'i', 'e', 'n', 'c', 'e'], "Boost"@, "¤(Boost)"@);
    assert(crate::text::witnessed(seq!['E', 'x', 'p', 'e', 'r', 'i', 'e', 'n', 'c', 'e'], "boost"@, seq![0, 0, 0, 0, 0, 0], 0)) by { reveal_with_fuel(crate::text::witnessed, 8); }
    crate::text::lemma_witnessed_none(seq!['E', 'x', 'p', 'e', 'r', 'i', 'e', 'n', 'c', 'e'], "boost"@, seq![0, 0, 0, 0, 0, 0], 0);
    crate::text::lemma_replace_none(seq!['E', 'x', 'p', 'e', 'r', 'i', 'e', 'n', 'c', 'e'], "boost"@, "¤(boost)"@);
    assert(crate::text::witnessed(seq!['E', 'x', 'p', 'e', 'r', 'i', 'e', 'n', 'c', 'e'], "experience"@, seq![0], 0)) by { reveal_with_fuel(crate::text::witnessed, 3); }
    crate::text::lemma_witnessed_none(seq!['E', 'x', 'p', 'e', 'r', 'i', 'e', 'n', 'c', 'e'], "experience"@, seq![0], 0);
    crate::text::lemma_replace_none(seq!['E', 'x', 'p', 'e', 'r', 'i', 'e', 'n', 'c', 'e'], "experience"@, "¤(xp)"@);
    assert(crate::text::witnessed_until(seq!['E', 'x', 'p', 'e', 'r', 'i', 'e', 'n', 'c', 'e'], "Experience"@, seq![], 0, 0)) by { reveal_with_fuel(crate::text::witnessed_until, 2); }
    assert(crate::text::witnessed(seq!['E', 'x', 'p', 'e', 'r', 'i', 'e', 'n', 'c', 'e'], "Experience"@, seq![0, 0, 0, 0, 0, 0, 0, 0, 0, 0], 10)) by { reveal_with_fuel(crate::text::witnessed, 12); }
    assert(seq!['E', 'x', 'p', 'e', 'r', 'i', 'e', 'n', 'c', 'e'].subrange(0, 10) =~= "Experience"@);
    crate::text::lemma_replace_once(seq!['E', 'x', 'p', 'e', 'r', 'i', 'e', 'n', 'c', 'e'], "Experience"@, "¤(Xp)"@, 0, seq![], seq![0, 0, 0, 0, 0, 0, 0, 0, 0, 0]);
    assert(seq!['E', 'x', 'p', 'e', 'r', 'i', 'e', 'n', 'c', 'e'].subrange(0, 0) + "¤(Xp)"@ + seq!['E', 'x', 'p', 'e', 'r', 'i', 'e', 'n', 'c', 'e'].subrange(10, 10) =~= seq!['\u{a4}', '(', 'X', 'p', ')']);
    assert(crate::text::witnessed(seq!['\u{a4}', '(', 'X', 'p', ')'], " mana "@, seq![], 0)) by { reveal_with_fuel(crate::text::witnessed, 2); }
    crate::text::lemma_witnessed_none(seq!['\u{a4}', '(', 'X', 'p', ')'], " mana "@, seq![], 0);
    crate::text::lemma_replace_none(seq!['\u{a4}', '(', 'X', 'p', ')'], " mana "@, " ¤(mana) "@);
}

/// What group 1 makes of the middle of phrase 5.
proof fn lemma_phrase_5_group_1()
    ensures
        phrase_group_1(seq!['\u{a4}', '(', 'X', 'p', ')']) == seq!['\u{a4}', '(', 'X', 'p', ')'],
{
    reveal(phrase_group_1);
    reveal_strlit(" Mana ");
    reveal_strlit(" Mana,");
    reveal_strlit(" Mana.");
    reveal_strlit(" mana,");
    reveal_strlit(" mana.");
    reveal_strlit(" ¤(Mana) ");
    reveal_strlit(" ¤(Mana),");
    reveal_strlit(" ¤(Mana).");
    reveal_strlit(" ¤(mana),");
    reveal_strlit(" ¤(mana).");
    reveal_strlit("I am");
    reveal_strlit("I'm");
    reveal_strlit("I’m");
    assert(crate::text::witnessed(seq!['\u{a4}', '(', 'X', 'p', ')'], " mana."@, seq![], 0)) by { reveal_with_fuel(crate::text::witnessed, 2); }
    crate::text::lemma_witnessed_none(seq!['\u{a4}', '(', 'X', 'p', ')'], " mana."@, seq![], 0);
    crate::text::lemma_replace_none(seq!['\u{a4}', '(', 'X', 'p', ')'], " mana."@, " ¤(mana)."@);
    assert(crate::text::witnessed(seq!['\u{a4}', '(', 'X', 'p', ')'], " mana,"@, seq![], 0)) by { reveal_with_fuel(crate::text::witnessed, 2); }
    crate::text::lemma_witnessed_none(seq!['\u{a4}', '(', 'X', 'p', ')'], " mana,"@, seq![], 0);
    crate::text::lemma_replace_none(seq!['\u{a4}', '(', 'X', 'p', ')'], " mana,"@, " ¤(mana),"@);
    assert(crate::text::witnessed(seq!['\u{a4}', '(', 'X', 'p', ')'], " Mana "@, seq![], 0)) by { reveal_with_fuel(crate::text::witnessed, 2); }
    crate::text::lemma_witnessed_none(seq!['\u{a4}', '(', 'X', 'p', ')'], " Mana "@, seq![], 0);
    crate::text::lemma_replace_none(seq!['\u{a4}', '(', 'X', 'p', ')'], " Mana "@, " ¤(Mana) "@);
    assert(crate::text::witnessed(seq!['\u{a4}', '(', 'X', 'p', ')'], " Mana."@, seq![], 0)) by { reveal_with_fuel(crate::text::witnessed, 2); }
    crate::text::lemma_witnessed_none(seq!['\u{a4}', '(', 'X', 'p', ')'], " Mana."@, seq![], 0);
    crate::text::lemma_replace_none(seq!['\u{a4}', '(', 'X', 'p', ')'], " Mana."@, " ¤(Mana)."@);
    assert(crate::text::witnessed(seq!['\u{a4}', '(', 'X', 'p', ')'], " Mana,"@, seq![], 0)) by { reveal_with_fuel(crate::text::witnessed, 2); }
    crate::text::lemma_witnessed_none(seq!['\u{a4}', '(', 'X', 'p', ')'], " Mana,"@, seq![], 0);
    crate::text::lemma_replace_none(seq!['\u{a4}', '(', 'X', 'p', ')'], " Mana,"@, " ¤(Mana),"@);
    assert(crate::text::witnessed(seq!['\u{a4}', '(', 'X', 'p', ')'], "I’m"@, seq![0, 0, 0], 0)) by { reveal_with_fuel(crate::text::witnessed, 5); }
    crate::text::lemma_witnessed_none(seq!['\u{a4}', '(', 'X', 'p', ')'], "I’m"@, seq![0, 0, 0], 0);
    crate::text::lemma_replace_none(seq!['\u{a4}', '(', 'X', 'p', ')'], "I’m"@, "I am"@);
    assert(crate::text::witnessed(seq!['\u{a4}', '(', 'X', 'p', ')'], "I'm"@, seq![0, 0, 0], 0)) by { reveal_with_fuel(crate::text::witnessed, 5); }
    crate::text::lemma_witnessed_none(seq!['\u{a4}', '(', 'X', 'p', ')'], "I'm"@, seq![0, 0, 0], 0);
    crate::text::lemma_replace_none(seq!['\u{a4}', '(', 'X', 'p', ')'], "I'm"@, "I am"@);
}

/// What group 2 makes of the middle of phrase 5.
proof fn lemma_phrase_5_group_2()
    ensures
        phrase_group_2(seq!['\u{a4}', '(', 'X', 'p', ')']) == seq!['\u{a4}', '(', 'X', 'p', ')'],
{
    reveal(phrase_group_2);
    reveal_strlit(" I am ");
    reveal_strlit(" I have");
    reveal_strlit(" me ");
    reveal_strlit(" my ");
    reveal_strlit(" ¤(I have)");
    reveal_strlit(" ¤(i am) ");
    reveal_strlit(" ¤(i have)");
    reveal_strlit(" ¤(me) ");
    reveal_strlit(" ¤(my) ");
    reveal_strlit(". I am ");
    reveal_strlit(". I have");
    reveal_strlit(". My ");
    reveal_strlit(". ¤(I am) ");
    reveal_strlit(". ¤(My) ");
    assert(crate::text::witnessed(seq!['\u{a4}', '(', 'X', 'p', ')'], ". I am "@, seq![], 0)) by { reveal_with_fuel(crate::text::witnessed, 2); }
    crate::text::lemma_witnessed_none(seq!['\u{a4}', '(', 'X', 'p', ')'], ". I am "@, seq![], 0);
    crate::text::lemma_replace_none(seq!['\u{a4}', '(', 'X', 'p', ')'], ". I am "@, ". ¤(I am) "@);
    assert(crate::text::witnessed(seq!['\u{a4}', '(', 'X', 'p', ')'], " I am "@, seq![], 0)) by { reveal_with_fuel(crate::text::witnessed, 2); }
    crate::text::lemma_witnessed_none(seq!['\u{a4}', '(', 'X', 'p', ')'], " I am "@, seq![], 0);
    crate::text::lemma_replace_none(seq!['\u{a4}', '(', 'X', 'p', ')'], " I am "@, " ¤(i am) "@);
    assert(crate::text::witnessed(seq!['\u{a4}', '(', 'X', 'p', ')'], " I have"@, seq![], 0)) by { reveal_with_fuel(crate::text::witnessed, 2); }
    crate::text::lemma_witnessed_none(seq!['\u{a4}', '(', 'X', 'p', ')'], " I have"@, seq![], 0);
    crate::text::lemma_replace_none(seq!['\u{a4}', '(', 'X', 'p', ')'], " I have"@, " ¤(i have)"@);
    assert(crate::text::witnessed(seq!['\u{a4}', '(', 'X', 'p', ')'], ". I have"@, seq![], 0)) by { reveal_with_fuel(crate::text::witnessed, 2); }
    crate::text::lemma_witnessed_none(seq!['\u{a4}', '(', 'X', 'p', ')'], ". I have"@, seq![], 0);
    crate::text::lemma_replace_none(seq!['\u{a4}', '(', 'X', 'p', ')'], ". I have"@, " ¤(I have)"@);
    assert(crate::text::witnessed(seq!['\u{a4}', '(', 'X', 'p', ')'], " my "@, seq![0, 0], 0)) by { reveal_with_fuel(crate::text::witnessed, 4); }
    crate::text::lemma_witnessed_none(seq!['\u{a4}', '(', 'X', 'p', ')'], " my "@, seq![0, 0], 0);
    crate::text::lemma_replace_none(seq!['\u{a4}', '(', 'X', 'p', ')'], " my "@, " ¤(my) "@);
    assert(crate::text::witnessed(seq!['\u{a4}', '(', 'X', 'p', ')'], ". My "@, seq![0], 0)) by { reveal_with_fuel(crate::text::witnessed, 3); }
    crate::text::lemma_witnessed_none(seq!['\u{a4}', '(', 'X', 'p', ')'], ". My "@, seq![0], 0);
    crate::text::lemma_replace_none(seq!['\u{a4}', '(', 'X', 'p', ')'], ". My "@, ". ¤(My) "@);
    assert(crate::text::witnessed(seq!['\u{a4}', '(', 'X', 'p', ')'], " me "@, seq![0, 0], 0)) by { reveal_with_fuel(crate::text::witnessed, 4); }
    crate::text::lemma_witnessed_none(seq!['\u{a4}', '(', 'X', 'p', ')'], " me "@, seq![0, 0], 0);
    crate::text::lemma_replace_none(seq!['\u{a4}', '(', 'X', 'p', ')'], " me "@, " ¤(me) "@);
}

/// What group 3 makes of the middle of phrase 5.
proof fn lemma_phrase_5_group_3()
    ensures
        phrase_group_3(seq!['\u{a4}', '(', 'X', 'p', ')']) == seq!['\u{a4}', '(', 'X', 'p', ')'],
{
    reveal(phrase_group_3);
    reveal_strlit(" Me ");
    reveal_strlit(" Me,");
    reveal_strlit(" Me.");
    reveal_strlit(" me,");
    reveal_strlit(" me.");
    reveal_strlit(" ¤(Me) ");
    reveal_strlit(" ¤(Me),");
    reveal_strlit(" ¤(Me).");
    reveal_strlit(" ¤(me),");
    reveal_strlit(" ¤(me).");
    reveal_strlit(". I ");
    reveal_strlit(". ¤(I) ");
    reveal_strlit("\nI ");
    reveal_strlit("\n¤(I) ");
    assert(crate::text::witnessed(seq!['\u{a4}', '(', 'X', 'p', ')'], " me,"@, seq![0, 0], 0)) by { reveal_with_fuel(crate::text::witnessed, 4); }
    crate::text::lemma_witnessed_none(seq!['\u{a4}', '(', 'X', 'p', ')'], " me,"@, seq![0, 0], 0);
    crate::text::lemma_replace_none(seq!['\u{a4}', '(', 'X', 'p', ')'], " me,"@, " ¤(me),"@);
    assert(crate::text::witnessed(seq!['\u{a4}', '(', 'X', 'p', ')'], " me."@, seq![0, 0], 0)) by { reveal_with_fuel(crate::text::witnessed, 4); }
    crate::text::lemma_witnessed_none(seq!['\u{a4}', '(', 'X', 'p', ')'], " me."@, seq![0, 0], 0);
    crate::text::lemma_replace_none(seq!['\u{a4}', '(', 'X', 'p', ')'], " me."@, " ¤(me)."@);
    assert(crate::text::witnessed(seq!['\u{a4}', '(', 'X', 'p', ')'], " Me "@, seq![0, 0], 0)) by { reveal_with_fuel(crate::text::witnessed, 4); }
    crate::text::lemma_witnessed_none(seq!['\u{a4}', '(', 'X', 'p', ')'], " Me "@, seq![0, 0], 0);
    crate::text::lemma_replace_none(seq!['\u{a4}', '(', 'X', 'p', ')'], " Me "@, " ¤(Me) "@);
    assert(crate::text::witnessed(seq!['\u{a4}', '(', 'X', 'p', ')'], " Me,"@, seq![0, 0], 0)) by { reveal_with_fuel(crate::text::witnessed, 4); }
    crate::text::lemma_witnessed_none(seq!['\u{a4}', '(', 'X', 'p', ')'], " Me,"@, seq![0, 0], 0);
    crate::text::lemma_replace_none(seq!['\u{a4}', '(', 'X', 'p', ')'], " Me,"@, " ¤(Me),"@);
    assert(crate::text::witnessed(seq!['\u{a4}', '(', 'X', 'p', ')'], " Me."@, seq![0, 0], 0)) by { reveal_with_fuel(crate::text::witnessed, 4); }
    crate::text::lemma_witnessed_none(seq!['\u{a4}', '(', 'X', 'p', ')'], " Me."@, seq![0, 0], 0);
    crate::text::lemma_replace_none(seq!['\u{a4}', '(', 'X', 'p', ')'], " Me."@, " ¤(Me)."@);
    assert(crate::text::witnessed(seq!['\u{a4}', '(', 'X', 'p', ')'], "\nI "@, seq![0, 0, 0], 0)) by { reveal_with_fuel(crate::text::witnessed, 5); }
    crate::text::lemma_witnessed_none(seq!['\u{a4}', '(', 'X', 'p', ')'], "\nI "@, seq![0, 0, 0], 0);
    crate::text::lemma_replace_none(seq!['\u{a4}', '(', 'X', 'p', ')'], "\nI "@, "\n¤(I) "@);
    assert(crate::text::witnessed(seq!['\u{a4}', '(', 'X', 'p', ')'], ". I "@, seq![0, 0], 0)) by { reveal_with_fuel(crate::text::witnessed, 4); }
    crate::text::lemma_witnessed_none(seq!['\u{a4}', '(', 'X', 'p', ')'], ". I "@, seq![0, 0], 0);
    crate::text::lemma_replace_none(seq!['\u{a4}', '(', 'X', 'p', ')'], ". I "@, ". ¤(I) "@);
}

/// What group 4 makes of the middle of phrase 5.
proof fn lemma_phrase_5_group_4()
    ensures
        phrase_group_4(seq!['\u{a4}', '(', 'X', 'p', ')']) == seq!['\u{a4}', '(', 'X', 'p', ')'],
{
    reveal(phrase_group_4);
    reveal_strlit(" I ");
    reveal_strlit(" I,");
    reveal_strlit(" I.");
    reveal_strlit(" ¤(i) ");
    reveal_strlit(" ¤(i),");
    reveal_strlit(" ¤(i).");
    reveal_strlit(". I,");
    reveal_strlit(". I.");
    reveal_strlit(". ¤(I),");
    reveal_strlit(". ¤(I). ");
    reveal_strlit("Cards ¤(I am) attached to");
    reveal_strlit("The card ¤(I am) attached to");
    reveal_strlit("cards ¤(I am) attached to");
    reveal_strlit("the card ¤(I am) attached to");
    assert(crate::text::witnessed(seq!['\u{a4}', '(', 'X', 'p', ')'], ". I,"@, seq![0, 0], 0)) by { reveal_with_fuel(crate::text::witnessed, 4); }
    crate::text::lemma_witnessed_none(seq!['\u{a4}', '(', 'X', 'p', ')'], ". I,"@, seq![0, 0], 0);
    crate::text::lemma_replace_none(seq!['\u{a4}', '(', 'X', 'p', ')'], ". I,"@, ". ¤(I),"@);
    assert(crate::text::witnessed(seq!['\u{a4}', '(', 'X', 'p', ')'], ". I."@, seq![0, 0], 0)) by { reveal_with_fuel(crate::text::witnessed, 4); }
    crate::text::lemma_witnessed_none(seq!['\u{a4}', '(', 'X', 'p', ')'], ". I."@, seq![0, 0], 0);
    crate::text::lemma_replace_none(seq!['\u{a4}', '(', 'X', 'p', ')'], ". I."@, ". ¤(I). "@);
    assert(crate::text::witnessed(seq!['\u{a4}', '(', 'X', 'p', ')'], " I "@, seq![0, 0, 0], 0)) by { reveal_with_fuel(crate::text::witnessed, 5); }
    crate::text::lemma_witnessed_none(seq!['\u{a4}', '(', 'X', 'p', ')'], " I "@, seq![0, 0, 0], 0);
    crate::text::lemma_replace_none(seq!['\u{a4}', '(', 'X', 'p', ')'], " I "@, " ¤(i) "@);
    assert(crate::text::witnessed(seq!['\u{a4}', '(', 'X', 'p', ')'], " I,"@, seq![0, 0, 0], 0)) by { reveal_with_fuel(crate::text::witnessed, 5); }
    crate::text::lemma_witnessed_none(seq!['\u{a4}', '(', 'X', 'p', ')'], " I,"@, seq![0, 0, 0], 0);
    crate::text::lemma_replace_none(seq!['\u{a4}', '(', 'X', 'p', ')'], " I,"@, " ¤(i),"@);
    assert(crate::text::witnessed(seq!['\u{a4}', '(', 'X', 'p', ')'], " I."@, seq![0, 0, 0], 0)) by { reveal_with_fuel(crate::text::witnessed, 5); }
    crate::text::lemma_witnessed_none(seq!['\u{a4}', '(', 'X', 'p', ')'], " I."@, seq![0, 0, 0], 0);
    crate::text::lemma_replace_none(seq!['\u{a4}', '(', 'X', 'p', ')'], " I."@, " ¤(i)."@);
    assert(crate::text::witnessed(seq!['\u{a4}', '(', 'X', 'p', ')'], "Cards ¤(I am) attached to"@, seq![], 0)) by { reveal_with_fuel(crate::text::witnessed, 2); }
    crate::text::lemma_witnessed_none(seq!['\u{a4}', '(', 'X', 'p', ')'], "Cards ¤(I am) attached to"@, seq![], 0);
    crate::text::lemma_replace_none(seq!['\u{a4}', '(', 'X', 'p', ')'], "Cards ¤(I am) attached to"@, "The card ¤(I am) attached to"@);
    assert(crate::text::witnessed(seq!['\u{a4}', '(', 'X', 'p', ')'], "cards ¤(I am) attached to"@, seq![], 0)) by { reveal_with_fuel(crate::text::witnessed, 2); }
    crate::text::lemma_witnessed_none(seq!['\u{a4}', '(', 'X', 'p', ')'], "cards ¤(I am) attached to"@, seq![], 0);
    crate::text::lemma_replace_none(seq!['\u{a4}', '(', 'X', 'p', ')'], "cards ¤(I am) attached to"@, "the card ¤(I am) attached to"@);
}

/// Between digits, phrase 5 becomes what the card text makes of it.
proof fn lemma_phrase_5(x: Seq<char>, y: Seq<char>)
    requires
        all_digits(x),
        all_digits(y),
        trim(x + "Experience"@ + y) == x + "Experience"@ + y,
    ensures
        phrase_commands(x + "Experience"@ + y) == Some(x + seq!['\u{a4}', '(', 'X', 'p', ')'] + y),
{
    reveal_strlit("Experience");
    assert("Experience"@ =~= seq!['E', 'x', 'p', 'e', 'r', 'i', 'e', 'n', 'c', 'e']);
    reveal_strlit("Card with");
    reveal_strlit("card with");
    reveal_strlit("Cards with");
    reveal_strlit("cards with");
    let m0 = seq!['E', 'x', 'p', 'e', 'r', 'i', 'e', 'n', 'c', 'e'];
    lemma_group_framed_0(x, m0, y);
    lemma_phrase_5_group_0();
    let m1 = phrase_group_0(m0);
    lemma_group_framed_1(x, m1, y);
    lemma_phrase_5_group_1();
    let m2 = phrase_group_1(m1);
    lemma_group_framed_2(x, m2, y);
    lemma_phrase_5_group_2();
    let m3 = phrase_group_2(m2);
    lemma_group_framed_3(x, m3, y);
    lemma_phrase_5_group_3();
    let m4 = phrase_group_3(m3);
    lemma_group_framed_4(x, m4, y);
    lemma_phrase_5_group_4();
    let m5 = phrase_group_4(m4);
    assert(crate::text::witnessed(seq!['\u{a4}', '(', 'X', 'p', ')'], "Card with"@, seq![], 0)) by { reveal_with_fuel(crate::text::witnessed, 2); }
    crate::text::lemma_witnessed_none(seq!['\u{a4}', '(', 'X', 'p', ')'], "Card with"@, seq![], 0);
    assert(digit_free("Card with"@));
    crate::text::lemma_replace_framed(x, seq!['\u{a4}', '(', 'X', 'p', ')'], y, "Card with"@, "Card with"@);
    assert(with_marker(WithPhrase::Card) == "Card with"@);
    assert(crate::text::witnessed(seq!['\u{a4}', '(', 'X', 'p', ')'], "card with"@, seq![], 0)) by { reveal_with_fuel(crate::text::witnessed, 2); }
    crate::text::lemma_witnessed_none(seq!['\u{a4}', '(', 'X', 'p', ')'], "card with"@, seq![], 0);
    assert(digit_free("card with"@));
    crate::text::lemma_replace_framed(x, seq!['\u{a4}', '(', 'X', 'p', ')'], y, "card with"@, "card with"@);
    assert(with_marker(WithPhrase::CardLower) == "card with"@);
    assert(crate::text::witnessed(seq!['\u{a4}', '(', 'X', 'p', ')'], "Cards with"@, seq![], 0)) by { reveal_with_fuel(crate::text::witnessed, 2); }
    crate::text::lemma_witnessed_none(seq!['\u{a4}', '(', 'X', 'p', ')'], "Cards with"@, seq![], 0);
    assert(digit_free("Cards with"@));
    crate::text::lemma_replace_framed(x, seq!['\u{a4}', '(', 'X', 'p', ')'], y, "Cards with"@, "Cards with"@);
    assert(with_marker(WithPhrase::Cards) == "Cards with"@);
    assert(crate::text::witnessed(seq!['\u{a4}', '(', 'X', 'p', ')'], "cards with"@, seq![], 0)) by { reveal_with_fuel(crate::text::witnessed, 2); }
    crate::text::lemma_witnessed_none(seq!['\u{a4}', '(', 'X', 'p', ')'], "cards with"@, seq![], 0);
    assert(digit_free("cards with"@));
    crate::text::lemma_replace_framed(x, seq!['\u{a4}', '(', 'X', 'p', ')'], y, "cards with"@, "cards with"@);
    assert(with_marker(WithPhrase::CardsLower) == "cards with"@);
}

/// What group 0 makes of the middle of phrase 6.
proof fn lemma_phrase_6_group_0()
    ensures
        phrase_group_0(seq![' ', 'm', 'a', 'n', 'a', ' ']) == seq![' ', '\u{a4}', '(', 'm', 'a', 'n', 'a', ')', ' '],
{
    reveal(phrase_group_0);
    reveal_strlit(" ");
    reveal_strlit("  ");
    reveal_strlit(" mana ");
    reveal_strlit(" ¤(mana) ");
    reveal_strlit("Boost");
    reveal_strlit("Experience");
    reveal_strlit("\n ");
    reveal_strlit("boost");
    reveal_strlit("experience");
    reveal_strlit("¤(Boost)");
    reveal_strlit("¤(Xp)");
    reveal_strlit("¤(boost)");
    reveal_strlit("¤(xp)");
    assert(crate::text::witnessed(seq![' ', 'm', 'a', 'n', 'a', ' '], "\n "@, seq![0, 0, 0, 0, 0], 0)) by { reveal_with_fuel(crate::text::witnessed, 7); }
    crate::text::lemma_witnessed_none(seq![' ', 'm', 'a', 'n', 'a', ' '], "\n "@, seq![0, 0, 0, 0, 0], 0);
    crate::text::lemma_replace_none(seq![' ', 'm', 'a', 'n', 'a', ' '], "\n "@, " "@);
    assert(crate::text::witnessed(seq![' ', 'm', 'a', 'n', 'a', ' '], "  "@, seq![1, 0, 0, 0, 0], 0)) by { reveal_with_fuel(crate::text::witnessed, 7); }
    crate::text::lemma_witnessed_none(seq![' ', 'm', 'a', 'n', 'a', ' '], "  "@, seq![1, 0, 0, 0, 0], 0);
    crate::text::lemma_replace_none(seq![' ', 'm', 'a', 'n', 'a', ' '], "  "@, " "@);
    assert(crate::text::witnessed(seq![' ', 'm', 'a', 'n', 'a', ' '], "Boost"@, seq![0, 0], 0)) by { reveal_with_fuel(crate::text::witnessed, 4); }
    crate::text::lemma_witnessed_none(seq![' ', 'm', 'a', 'n', 'a', ' '], "Boost"@, seq![0, 0], 0);
    crate::text::lemma_replace_none(seq![' ', 'm', 'a', 'n', 'a', ' '], "Boost"@, "¤(Boost)"@);
    assert(crate::text::witnessed(seq![' ', 'm', 'a', 'n', 'a', ' '], "boost"@, seq![0, 0], 0)) by { reveal_with_fuel(crate::text::witnessed, 4); }
    crate::text::lemma_witnessed_none(seq![' ', 'm', 'a', 'n', 'a', ' '], "boost"@, seq![0, 0], 0);
    crate::text::lemma_replace_none(seq![' ', 'm', 'a', 'n', 'a', ' '], "boost"@, "¤(boost)"@);
    assert(crate::text::witnessed(seq![' ', 'm', 'a', 'n', 'a', ' '], "experience"@, seq![], 0)) by { reveal_with_fuel(crate::text::witnessed, 2); }
    crate::text::lemma_witnessed_none(seq![' ', 'm', 'a', 'n', 'a', ' '], "experience"@, seq![], 0);
    crate::text::lemma_replace_none(seq![' ', 'm', 'a', 'n', 'a', ' '], "experience"@, "¤(xp)"@);
    assert(crate::text::witnessed(seq![' ', 'm', 'a', 'n', 'a', ' '], "Experience"@, seq![], 0)) by { reveal_with_fuel(crate::text::witnessed, 2); }
    crate::text::lemma_witnessed_none(seq![' ', 'm', 'a', 'n', 'a', ' '], "Experience"@, seq![], 0);
    crate::text::lemma_replace_none(seq![' ', 'm', 'a', 'n', 'a', ' '], "Experience"@, "¤(Xp)"@);
    assert(crate::text::witnessed_until(seq![' ', 'm', 'a', 'n', 'a', ' '], " mana "@, seq![], 0, 0)) by { reveal_with_fuel(crate::text::witnessed_until, 2); }
    assert(crate::text::witnessed(seq![' ', 'm', 'a', 'n', 'a', ' '], " mana "@, seq![0, 0, 0, 0, 0, 0], 6)) by { reveal_with_fuel(crate::text::witnessed, 8); }
    assert(seq![' ', 'm', 'a', 'n', 'a', ' '].subrange(0, 6) =~= " mana "@);
    crate::text::lemma_replace_once(seq![' ', 'm', 'a', 'n', 'a', ' '], " mana "@, " ¤(mana) "@, 0, seq![], seq![0, 0, 0, 0, 0, 0]);
    assert(seq![' ', 'm', 'a', 'n', 'a', ' '].subrange(0, 0) + " ¤(mana) "@ + seq![' ', 'm', 'a', 'n', 'a', ' '].subrange(6, 6) =~= seq![' ', '\u{a4}', '(', 'm', 'a', 'n', 'a', ')', ' ']);
}

/// What group 1 makes of the middle of phrase 6.
proof fn lemma_phrase_6_group_1()
    ensures
        phrase_group_1(seq![' ', '\u{a4}', '(', 'm', 'a', 'n', 'a', ')', ' ']) == seq![' ', '\u{a4}', '(', 'm', 'a', 'n', 'a', ')', ' '],
{
    reveal(phrase_group_1);
    reveal_strlit(" Mana ");
    reveal_strlit(" Mana,");
    reveal_strlit(" Mana.");
    reveal_strlit(" mana,");
    reveal_strlit(" mana.");
    reveal_strlit(" ¤(Mana) ");
    reveal_strlit(" ¤(Mana),");
    reveal_strlit(" ¤(Mana).");
    reveal_strlit(" ¤(mana),");
    reveal_strlit(" ¤(mana).");
    reveal_strlit("I am");
    reveal_strlit("I'm");
    reveal_strlit("I’m");
    assert(crate::text::witnessed(seq![' ', '\u{a4}', '(', 'm', 'a', 'n', 'a', ')', ' '], " mana."@, seq![1, 0, 0, 0], 0)) by { reveal_with_fuel(crate::text::witnessed, 6); }
    crate::text::lemma_witnessed_none(seq![' ', '\u{a4}', '(', 'm', 'a', 'n', 'a', ')', ' '], " mana."@, seq![1, 0, 0, 0], 0);
    crate::text::lemma_replace_none(seq![' ', '\u{a4}', '(', 'm', 'a', 'n', 'a', ')', ' '], " mana."@, " ¤(mana)."@);
    assert(crate::text::witnessed(seq![' ', '\u{a4}', '(', 'm', 'a', 'n', 'a', ')', ' '], " mana,"@, seq![1, 0, 0, 0], 0)) by { reveal_with_fuel(crate::text::witnessed, 6); }
    crate::text::lemma_witnessed_none(seq![' ', '\u{a4}', '(', 'm', 'a', 'n', 'a', ')', ' '], " mana,"@, seq![1, 0, 0, 0], 0);
    crate::text::lemma_replace_none(seq![' ', '\u{a4}', '(', 'm', 'a', 'n', 'a', ')', ' '], " mana,"@, " ¤(mana),"@);
    assert(crate::text::witnessed(seq![' ', '\u{a4}', '(', 'm', 'a', 'n', 'a', ')', ' '], " Mana "@, seq![1, 0, 0, 0], 0)) by { reveal_with_fuel(crate::text::witnessed, 6); }
    crate::text::lemma_witnessed_none(seq![' ', '\u{a4}', '(', 'm', 'a', 'n', 'a', ')', ' '], " Mana "@, seq![1, 0, 0, 0], 0);
    crate::text::lemma_replace_none(seq![' ', '\u{a4}', '(', 'm', 'a', 'n', 'a', ')', ' '], " Mana "@, " ¤(Mana) "@);
    assert(crate::text::witnessed(seq![' ', '\u{a4}', '(', 'm', 'a', 'n', 'a', ')', ' '], " Mana."@, seq![1, 0, 0, 0], 0)) by { reveal_with_fuel(crate::text::witnessed, 6); }
    crate::text::lemma_witnessed_none(seq![' ', '\u{a4}', '(', 'm', 'a', 'n', 'a', ')', ' '], " Mana."@, seq![1, 0, 0, 0], 0);
    crate::text::lemma_replace_none(seq![' ', '\u{a4}', '(', 'm', 'a', 'n', 'a', ')', ' '], " Mana."@, " ¤(Mana)."@);
    assert(crate::text::witnessed(seq![' ', '\u{a4}', '(', 'm', 'a', 'n', 'a', ')', ' '], " Mana,"@, seq![1, 0, 0, 0], 0)) by { reveal_with_fuel(crate::text::witnessed, 6); }
    crate::text::lemma_witnessed_none(seq![' ', '\u{a4}', '(', 'm', 'a', 'n', 'a', ')', ' '], " Mana,"@, seq![1, 0, 0, 0], 0);
    crate::text::lemma_replace_none(seq![' ', '\u{a4}', '(', 'm', 'a', 'n', 'a', ')', ' '], " Mana,"@, " ¤(Mana),"@);
    assert(crate::text::witnessed(seq![' ', '\u{a4}', '(', 'm', 'a', 'n', 'a', ')', ' '], "I’m"@, seq![0, 0, 0, 0, 0, 0, 0], 0)) by { reveal_with_fuel(crate::text::witnessed, 9); }
    crate::text::lemma_witnessed_none(seq![' ', '\u{a4}', '(', 'm', 'a', 'n', 'a', ')', ' '], "I’m"@, seq![0, 0, 0, 0, 0, 0, 0], 0);
    crate::text::lemma_replace_none(seq![' ', '\u{a4}', '(', 'm', 'a', 'n', 'a', ')', ' '], "I’m"@, "I am"@);
    assert(crate::text::witnessed(seq![' ', '\u{a4}', '(', 'm', 'a', 'n', 'a', ')', ' '], "I'm"@, seq![0, 0, 0, 0, 0, 0, 0], 0)) by { reveal_with_fuel(crate::text::witnessed, 9); }
    crate::text::lemma_witnessed_none(seq![' ', '\u{a4}', '(', 'm', 'a', 'n', 'a', ')', ' '], "I'm"@, seq![0, 0, 0, 0, 0, 0, 0], 0);
    crate::text::lemma_replace_none(seq![' ', '\u{a4}', '(', 'm', 'a', 'n', 'a', ')', ' '], "I'm"@, "I am"@);
}

/// What group 2 makes of the middle of phrase 6.
proof fn lemma_phrase_6_group_2()
    ensures
        phrase_group_2(seq![' ', '\u{a4}', '(', 'm', 'a', 'n', 'a', ')', ' ']) == seq![' ', '\u{a4}', '(', 'm', 'a', 'n', 'a', ')', ' '],
{
    reveal(phrase_group_2);
    reveal_strlit(" I am ");
    reveal_strlit(" I have");
    reveal_strlit(" me ");
    reveal_strlit(" my ");
    reveal_strlit(" ¤(I have)");
    reveal_strlit(" ¤(i am) ");
    reveal_strlit(" ¤(i have)");
    reveal_strlit(" ¤(me) ");
    reveal_strlit(" ¤(my) ");
    reveal_strlit(". I am ");
    reveal_strlit(". I have");
    reveal_strlit(". My ");
    reveal_strlit(". ¤(I am) ");
    reveal_strlit(". ¤(My) ");
    assert(crate::text::witnessed(seq![' ', '\u{a4}', '(', 'm', 'a', 'n', 'a', ')', ' '], ". I am "@, seq![0, 0, 0], 0)) by { reveal_with_fuel(crate::text::witnessed, 5); }
    crate::text::lemma_witnessed_none(seq![' ', '\u{a4}', '(', 'm', 'a', 'n', 'a', ')', ' '], ". I am "@, seq![0, 0, 0], 0);
    crate::text::lemma_replace_none(seq![' ', '\u{a4}', '(', 'm', 'a', 'n', 'a', ')', ' '], ". I am "@, ". ¤(I am) "@);
    assert(crate::text::witnessed(seq![' ', '\u{a4}', '(', 'm', 'a', 'n', 'a', ')', ' '], " I am "@, seq![1, 0, 0, 0], 0)) by { reveal_with_fuel(crate::text::witnessed, 6); }
    crate::text::lemma_witnessed_none(seq![' ', '\u{a4}', '(', 'm', 'a', 'n', 'a', ')', ' '], " I am "@, seq![1, 0, 0, 0], 0);
    crate::text::lemma_replace_none(seq![' ', '\u{a4}', '(', 'm', 'a', 'n', 'a', ')', ' '], " I am "@, " ¤(i am) "@);
    assert(crate::text::witnessed(seq![' ', '\u{a4}', '(', 'm', 'a', 'n', 'a', ')', ' '], " I have"@, seq![1, 0, 0], 0)) by { reveal_with_fuel(crate::text::witnessed, 5); }
    crate::text::lemma_witnessed_none(seq![' ', '\u{a4}', '(', 'm', 'a', 'n', 'a', ')', ' '], " I have"@, seq![1, 0, 0], 0);
    crate::text::lemma_replace_none(seq![' ', '\u{a4}', '(', 'm', 'a', 'n', 'a', ')', ' '], " I have"@, " ¤(i have)"@);
    assert(crate::text::witnessed(seq![' ', '\u{a4}', '(', 'm', 'a', 'n', 'a', ')', ' '], ". I have"@, seq![0, 0], 0)) by { reveal_with_fuel(crate::text::witnessed, 4); }
    crate::text::lemma_witnessed_none(seq![' ', '\u{a4}', '(', 'm', 'a', 'n', 'a', ')', ' '], ". I have"@, seq![0, 0], 0);
    crate::text::lemma_replace_none(seq![' ', '\u{a4}', '(', 'm', 'a', 'n', 'a', ')', ' '], ". I have"@, " ¤(I have)"@);
    assert(crate::text::witnessed(seq![' ', '\u{a4}', '(', 'm', 'a', 'n', 'a', ')', ' '], " my "@, seq![1, 0, 0, 0, 0, 0], 0)) by { reveal_with_fuel(crate::text::witnessed, 8); }
    crate::text::lemma_witnessed_none(seq![' ', '\u{a4}', '(', 'm', 'a', 'n', 'a', ')', ' '], " my "@, seq![1, 0, 0, 0, 0, 0], 0);
    crate::text::lemma_replace_none(seq![' ', '\u{a4}', '(', 'm', 'a', 'n', 'a', ')', ' '], " my "@, " ¤(my) "@);
    assert(crate::text::witnessed(seq![' ', '\u{a4}', '(', 'm', 'a', 'n', 'a', ')', ' '], ". My "@, seq![0, 0, 0, 0, 0], 0)) by { reveal_with_fuel(crate::text::witnessed, 7); }
    crate::text::lemma_witnessed_none(seq![' ', '\u{a4}', '(', 'm', 'a', 'n', 'a', ')', ' '], ". My "@, seq![0, 0, 0, 0, 0], 0);
    crate::text::lemma_replace_none(seq![' ', '\u{a4}', '(', 'm', 'a', 'n', 'a', ')', ' '], ". My "@, ". ¤(My) "@);
    assert(crate::text::witnessed(seq![' ', '\u{a4}', '(', 'm', 'a', 'n', 'a', ')', ' '], " me "@, seq![1, 0, 0, 0, 0, 0], 0)) by { reveal_with_fuel(crate::text::witnessed, 8); }
    crate::text::lemma_witnessed_none(seq![' ', '\u{a4}', '(', 'm', 'a', 'n', 'a', ')', ' '], " me "@, seq![1, 0, 0, 0, 0, 0], 0);
    crate::text::lemma_replace_none(seq![' ', '\u{a4}', '(', 'm', 'a', 'n', 'a', ')', ' '], " me "@, " ¤(me) "@);
}

/// What group 3 makes of the middle of phrase 6.
proof fn lemma_phrase_6_group_3()
    ensures
        phrase_group_3(seq![' ', '\u{a4}', '(', 'm', 'a', 'n', 'a', ')', ' ']) == seq![' ', '\u{a4}', '(', 'm', 'a', 'n', 'a', ')', ' '],
{
    reveal(phrase_group_3);
    reveal_strlit(" Me ");
    reveal_strlit(" Me,");
    reveal_strlit(" Me.");
    reveal_strlit(" me,");
    reveal_strlit(" me.");
    reveal_strlit(" ¤(Me) ");
    reveal_strlit(" ¤(Me),");
    reveal_strlit(" ¤(Me).");
    reveal_strlit(" ¤(me),");
    reveal_strlit(" ¤(me).");
    reveal_strlit(". I ");
    reveal_strlit(". ¤(I) ");
    reveal_strlit("\nI ");
    reveal_strlit("\n¤(I) ");
    assert(crate::text::witnessed(seq![' ', '\u{a4}', '(', 'm', 'a', 'n', 'a', ')', ' '], " me,"@, seq![1, 0, 0, 0, 0, 0], 0)) by { reveal_with_fuel(crate::text::witnessed, 8); }
    crate::text::lemma_witnessed_none(seq![' ', '\u{a4}', '(', 'm', 'a', 'n', 'a', ')', ' '], " me,"@, seq![1, 0, 0, 0, 0, 0], 0);
    crate::text::lemma_replace_none(seq![' ', '\u{a4}', '(', 'm', 'a', 'n', 'a', ')', ' '], " me,"@, " ¤(me),"@);
    assert(crate::text::witnessed(seq![' ', '\u{a4}', '(', 'm', 'a', 'n', 'a', ')', ' '], " me."@, seq![1, 0, 0, 0, 0, 0], 0)) by { reveal_with_fuel(crate::text::witnessed, 8); }
    crate::text::lemma_witnessed_none(seq![' ', '\u{a4}', '(', 'm', 'a', 'n', 'a', ')', ' '], " me."@, seq![1, 0, 0, 0, 0, 0], 0);
    crate::text::lemma_replace_none(seq![' ', '\u{a4}', '(', 'm', 'a', 'n', 'a', ')', ' '], " me."@, " ¤(me)."@);
    assert(crate::text::witnessed(seq![' ', '\u{a4}', '(', 'm', 'a', 'n', 'a', ')', ' '], " Me "@, seq![1, 0, 0, 0, 0, 0], 0)) by { reveal_with_fuel(crate::text::witnessed, 8); }
    crate::text::lemma_witnessed_none(seq![' ', '\u{a4}', '(', 'm', 'a', 'n', 'a', ')', ' '], " Me "@, seq![1, 0, 0, 0, 0, 0], 0);
    crate::text::lemma_replace_none(seq![' ', '\u{a4}', '(', 'm', 'a', 'n', 'a', ')', ' '], " Me "@, " ¤(Me) "@);
    assert(crate::text::witnessed(seq![' ', '\u{a4}', '(', 'm', 'a', 'n', 'a', ')', ' '], " Me,"@, seq![1, 0, 0, 0, 0, 0], 0)) by { reveal_with_fuel(crate::text::witnessed, 8); }
    crate::text::lemma_witnessed_none(seq![' ', '\u{a4}', '(', 'm', 'a', 'n', 'a', ')', ' '], " Me,"@, seq![1, 0, 0, 0, 0, 0], 0);
    crate::text::lemma_replace_none(seq![' ', '\u{a4}', '(', 'm', 'a', 'n', 'a', ')', ' '], " Me,"@, " ¤(Me),"@);
    assert(crate::text::witnessed(seq![' ', '\u{a4}', '(', 'm', 'a', 'n', 'a', ')', ' '], " Me."@, seq![1, 0, 0, 0, 0, 0], 0)) by { reveal_with_fuel(crate::text::witnessed, 8); }
    crate::text::lemma_witnessed_none(seq![' ', '\u{a4}', '(', 'm', 'a', 'n', 'a', ')', ' '], " Me."@, seq![1, 0, 0, 0, 0, 0], 0);
    crate::text::lemma_replace_none(seq![' ', '\u{a4}', '(', 'm', 'a', 'n', 'a', ')', ' '], " Me."@, " ¤(Me)."@);
    assert(crate::text::witnessed(seq![' ', '\u{a4}', '(', 'm', 'a', 'n', 'a', ')', ' '], "\nI "@, seq![0, 0, 0, 0, 0, 0, 0], 0)) by { reveal_with_fuel(crate::text::witnessed, 9); }
    crate::text::lemma_witnessed_none(seq![' ', '\u{a4}', '(', 'm', 'a', 'n', 'a', ')', ' '], "\nI "@, seq![0, 0, 0, 0, 0, 0, 0], 0);
    crate::text::lemma_replace_none(seq![' ', '\u{a4}', '(', 'm', 'a', 'n', 'a', ')', ' '], "\nI "@, "\n¤(I) "@);
    assert(crate::text::witnessed(seq![' ', '\u{a4}', '(', 'm', 'a', 'n', 'a', ')', ' '], ". I "@, seq![0, 0, 0, 0, 0, 0], 0)) by { reveal_with_fuel(crate::text::witnessed, 8); }
    crate::text::lemma_witnessed_none(seq![' ', '\u{a4}', '(', 'm', 'a', 'n', 'a', ')', ' '], ". I "@, seq![0, 0, 0, 0, 0, 0], 0);
    crate::text::lemma_replace_none(seq![' ', '\u{a4}', '(', 'm', 'a', 'n', 'a', ')', ' '], ". I "@, ". ¤(I) "@);
}

/// What group 4 makes of the middle of phrase 6.
proof fn lemma_phrase_6_group_4()
    ensures
        phrase_group_4(seq![' ', '\u{a4}', '(', 'm', 'a', 'n', 'a', ')', ' ']) == seq![' ', '\u{a4}', '(', 'm', 'a', 'n', 'a', ')', ' '],
{
    reveal(phrase_group_4);
    reveal_strlit(" I ");
    reveal_strlit(" I,");
    reveal_strlit(" I.");
    reveal_strlit(" ¤(i) ");
    reveal_strlit(" ¤(i),");
    reveal_strlit(" ¤(i).");
    reveal_strlit(". I,");
    reveal_strlit(". I.");
    reveal_strlit(". ¤(I),");
    reveal_strlit(". ¤(I). ");
    reveal_strlit("Cards ¤(I am) attached to");
    reveal_strlit("The card ¤(I am) attached to");
    reveal_strlit("cards ¤(I am) attached to");
    reveal_strlit("the card ¤(I am) attached to");
    assert(crate::text::witnessed(seq![' ', '\u{a4}', '(', 'm', 'a', 'n', 'a', ')', ' '], ". I,"@, seq![0, 0, 0, 0, 0, 0], 0)) by { reveal_with_fuel(crate::text::witnessed, 8); }
    crate::text::lemma_witnessed_none(seq![' ', '\u{a4}', '(', 'm', 'a', 'n', 'a', ')', ' '], ". I,"@, seq![0, 0, 0, 0, 0, 0], 0);
    crate::text::lemma_replace_none(seq![' ', '\u{a4}', '(', 'm', 'a', 'n', 'a', ')', ' '], ". I,"@, ". ¤(I),"@);
    assert(crate::text::witnessed(seq![' ', '\u{a4}', '(', 'm', 'a', 'n', 'a', ')', ' '], ". I."@, seq![0, 0, 0, 0, 0, 0], 0)) by { reveal_with_fuel(crate::text::witnessed, 8); }
    crate::text::lemma_witnessed_none(seq![' ', '\u{a4}', '(', 'm', 'a', 'n', 'a', ')', ' '], ". I."@, seq![0, 0, 0, 0, 0, 0], 0);
    crate::text::lemma_replace_none(seq![' ', '\u{a4}', '(', 'm', 'a', 'n', 'a', ')', ' '], ". I."@, ". ¤(I). "@);
    assert(crate::text::witnessed(seq![' ', '\u{a4}', '(', 'm', 'a', 'n', 'a', ')', ' '], " I "@, seq![1, 0, 0, 0, 0, 0, 0], 0)) by { reveal_with_fuel(crate::text::witnessed, 9); }
    crate::text::lemma_witnessed_none(seq![' ', '\u{a4}', '(', 'm', 'a', 'n', 'a', ')', ' '], " I "@, seq![1, 0, 0, 0, 0, 0, 0], 0);
    crate::text::lemma_replace_none(seq![' ', '\u{a4}', '(', 'm', 'a', 'n', 'a', ')', ' '], " I "@, " ¤(i) "@);
    assert(crate::text::witnessed(seq![' ', '\u{a4}', '(', 'm', 'a', 'n', 'a', ')', ' '], " I,"@, seq![1, 0, 0, 0, 0, 0, 0], 0)) by { reveal_with_fuel(crate::text::witnessed, 9); }
    crate::text::lemma_witnessed_none(seq![' ', '\u{a4}', '(', 'm', 'a', 'n', 'a', ')', ' '], " I,"@, seq![1, 0, 0, 0, 0, 0, 0], 0);
    crate::text::lemma_replace_none(seq![' ', '\u{a4}', '(', 'm', 'a', 'n', 'a', ')', ' '], " I,"@, " ¤(i),"@);
    assert(crate::text::witnessed(seq![' ', '\u{a4}', '(', 'm', 'a', 'n', 'a', ')', ' '], " I."@, seq![1, 0, 0, 0, 0, 0, 0], 0)) by { reveal_with_fuel(crate::text::witnessed, 9); }
    crate::text::lemma_witnessed_none(seq![' ', '\u{a4}', '(', 'm', 'a', 'n', 'a', ')', ' '], " I."@, seq![1, 0, 0, 0, 0, 0, 0], 0);
    crate::text::lemma_replace_none(seq![' ', '\u{a4}', '(', 'm', 'a', 'n', 'a', ')', ' '], " I."@, " ¤(i)."@);
    assert(crate::text::witnessed(seq![' ', '\u{a4}', '(', 'm', 'a', 'n', 'a', ')', ' '], "Cards ¤(I am) attached to"@, seq![], 0)) by { reveal_with_fuel(crate::text::witnessed, 2); }
    crate::text::lemma_witnessed_none(seq![' ', '\u{a4}', '(', 'm', 'a', 'n', 'a', ')', ' '], "Cards ¤(I am) attached to"@, seq![], 0);
    crate::text::lemma_replace_none(seq![' ', '\u{a4}', '(', 'm', 'a', 'n', 'a', ')', ' '], "Cards ¤(I am) attached to"@, "The card ¤(I am) attached to"@);
    assert(crate::text::witnessed(seq![' ', '\u{a4}', '(', 'm', 'a', 'n', 'a', ')', ' '], "cards ¤(I am) attached to"@, seq![], 0)) by { reveal_with_fuel(crate::text::witnessed, 2); }
    crate::text::lemma_witnessed_none(seq![' ', '\u{a4}', '(', 'm', 'a', 'n', 'a', ')', ' '], "cards ¤(I am) attached to"@, seq![], 0);
    crate::text::lemma_replace_none(seq![' ', '\u{a4}', '(', 'm', 'a', 'n', 'a', ')', ' '], "cards ¤(I am) attached to"@, "the card ¤(I am) attached to"@);
}

/// Between digits, phrase 6 becomes what the card text makes of it.
proof fn lemma_phrase_6(x: Seq<char>, y: Seq<char>)
    requires
        all_digits(x),
        all_digits(y),
        trim(x + " mana "@ + y) == x + " mana "@ + y,
    ensures
        phrase_commands(x + " mana "@ + y) == Some(x + seq![' ', '\u{a4}', '(', 'm', 'a', 'n', 'a', ')', ' '] + y),
{
    reveal_strlit(" mana ");
    assert(" mana "@ =~= seq![' ', 'm', 'a', 'n', 'a', ' ']);
    reveal_strlit("Card with");
    reveal_strlit("card with");
    reveal_strlit("Cards with");
    reveal_strlit("cards with");
    let m0 = seq![' ', 'm', 'a', 'n', 'a', ' '];
    lemma_group_framed_0(x, m0, y);
    lemma_phrase_6_group_0();
    let m1 = phrase_group_0(m0);
    lemma_group_framed_1(x, m1, y);
    lemma_phrase_6_group_1();
    let m2 = phrase_group_1(m1);
    lemma_group_framed_2(x, m2, y);
    lemma_phrase_6_group_2();
    let m3 = phrase_group_2(m2);
    lemma_group_framed_3(x, m3, y);
    lemma_phrase_6_group_3();
    let m4 = phrase_group_3(m3);
    lemma_group_framed_4(x, m4, y);
    lemma_phrase_6_group_4();
    let m5 = phrase_group_4(m4);
    assert(crate::text::witnessed(seq![' ', '\u{a4}', '(', 'm', 'a', 'n', 'a', ')', ' '], "Card with"@, seq![0], 0)) by { reveal_with_fuel(crate::text::witnessed, 3); }
    crate::text::lemma_witnessed_none(seq![' ', '\u{a4}', '(', 'm', 'a', 'n', 'a', ')', ' '], "Card with"@, seq![0], 0);
    assert(digit_free("Card with"@));
    crate::text::lemma_replace_framed(x, seq![' ', '\u{a4}', '(', 'm', 'a', 'n', 'a', ')', ' '], y, "Card with"@, "Card with"@);
    assert(with_marker(WithPhrase::Card) == "Card with"@);
    assert(crate::text::witnessed(seq![' ', '\u{a4}', '(', 'm', 'a', 'n', 'a', ')', ' '], "card with"@, seq![0], 0)) by { reveal_with_fuel(crate::text::witnessed, 3); }
    crate::text::lemma_witnessed_none(seq![' ', '\u{a4}', '(', 'm', 'a', 'n', 'a', ')', ' '], "card with"@, seq![0], 0);
    assert(digit_free("card with"@));
    crate::text::lemma_replace_framed(x, seq![' ', '\u{a4}', '(', 'm', 'a', 'n', 'a', ')', ' '], y, "card with"@, "card with"@);
    assert(with_marker(WithPhrase::CardLower) == "card with"@);
    assert(crate::text::witnessed(seq![' ', '\u{a4}', '(', 'm', 'a', 'n', 'a', ')', ' '], "Cards with"@, seq![], 0)) by { reveal_with_fuel(crate::text::witnessed, 2); }
    crate::text::lemma_witnessed_none(seq![' ', '\u{a4}', '(', 'm', 'a', 'n', 'a', ')', ' '], "Cards with"@, seq![], 0);
    assert(digit_free("Cards with"@));
    crate::text::lemma_replace_framed(x, seq![' ', '\u{a4}', '(', 'm', 'a', 'n', 'a', ')', ' '], y, "Cards with"@, "Cards with"@);
    assert(with_marker(WithPhrase::Cards) == "Cards with"@);
    assert(crate::text::witnessed(seq![' ', '\u{a4}', '(', 'm', 'a', 'n', 'a', ')', ' '], "cards with"@, seq![], 0)) by { reveal_with_fuel(crate::text::witnessed, 2); }
    crate::text::lemma_witnessed_none(seq![' ', '\u{a4}', '(', 'm', 'a', 'n', 'a', ')', ' '], "cards with"@, seq![], 0);
    assert(digit_free("cards with"@));
    crate::text::lemma_replace_framed(x, seq![' ', '\u{a4}', '(', 'm', 'a', 'n', 'a', ')', ' '], y, "cards with"@, "cards with"@);
    assert(with_marker(WithPhrase::CardsLower) == "cards with"@);
}

/// What group 0 makes of the middle of phrase 7.
proof fn lemma_phrase_7_group_0()
    ensures
        phrase_group_0(seq![' ', 'm', 'a', 'n', 'a', '.']) == seq![' ', 'm', 'a', 'n', 'a', '.'],
{
    reveal(phrase_group_0);
    reveal_strlit(" ");
    reveal_strlit("  ");
    reveal_strlit(" mana ");
    reveal_strlit(" ¤(mana) ");
    reveal_strlit("Boost");
    reveal_strlit("Experience");
    reveal_strlit("\n ");
    reveal_strlit("boost");
    reveal_strlit("experience");
    reveal_strlit("¤(Boost)");
    reveal_strlit("¤(Xp)");
    reveal_strlit("¤(boost)");
    reveal_strlit("¤(xp)");
    assert(crate::text::witnessed(seq![' ', 'm', 'a', 'n', 'a', '.'], "\n "@, seq![0, 0, 0, 0, 0], 0)) by { reveal_with_fuel(crate::text::witnessed, 7); }
    crate::text::lemma_witnessed_none(seq![' ', 'm', 'a', 'n', 'a', '.'], "\n "@, seq![0, 0, 0, 0, 0], 0);
    crate::text::lemma_replace_none(seq![' ', 'm', 'a', 'n', 'a', '.'], "\n "@, " "@);
    assert(crate::text::witnessed(seq![' ', 'm', 'a', 'n', 'a', '.'], "  "@, seq![1, 0, 0, 0, 0], 0)) by { reveal_with_fuel(crate::text::witnessed, 7); }
    crate::text::lemma_witnessed_none(seq![' ', 'm', 'a', 'n', 'a', '.'], "  "@, seq![1, 0, 0, 0, 0], 0);
    crate::text::lemma_replace_none(seq![' ', 'm', 'a', 'n', 'a', '.'], "  "@, " "@);
    assert(crate::text::witnessed(seq![' ', 'm', 'a', 'n', 'a', '.'], "Boost"@, seq![0, 0], 0)) by { reveal_with_fuel(crate::text::witnessed, 4); }
    crate::text::lemma_witnessed_none(seq![' ', 'm', 'a', 'n', 'a', '.'], "Boost"@, seq![0, 0], 0);
    crate::text::lemma_replace_none(seq![' ', 'm', 'a', 'n', 'a', '.'], "Boost"@, "¤(Boost)"@);
    assert(crate::text::witnessed(seq![' ', 'm', 'a', 'n', 'a', '.'], "boost"@, seq![0, 0], 0)) by { reveal_with_fuel(crate::text::witnessed, 4); }
    crate::text::lemma_witnessed_none(seq![' ', 'm', 'a', 'n', 'a', '.'], "boost"@, seq![0, 0], 0);
    crate::text::lemma_replace_none(seq![' ', 'm', 'a', 'n', 'a', '.'], "boost"@, "¤(boost)"@);
    assert(crate::text::witnessed(seq![' ', 'm', 'a', 'n', 'a', '.'], "experience"@, seq![], 0)) by { reveal_with_fuel(crate::text::witnessed, 2); }
    crate::text::lemma_witnessed_none(seq![' ', 'm', 'a', 'n', 'a', '.'], "experience"@, seq![], 0);
    crate::text::lemma_replace_none(seq![' ', 'm', 'a', 'n', 'a', '.'], "experience"@, "¤(xp)"@);
    assert(crate::text::witnessed(seq![' ', 'm', 'a', 'n', 'a', '.'], "Experience"@, seq![], 0)) by { reveal_with_fuel(crate::text::witnessed, 2); }
    crate::text::lemma_witnessed_none(seq![' ', 'm', 'a', 'n', 'a', '.'], "Experience"@, seq![], 0);
    crate::text::lemma_replace_none(seq![' ', 'm', 'a', 'n', 'a', '.'], "Experience"@, "¤(Xp)"@);
    assert(crate::text::witnessed(seq![' ', 'm', 'a', 'n', 'a', '.'], " mana "@, seq![5], 0)) by { reveal_with_fuel(crate::text::witnessed, 3); }
    crate::text::lemma_witnessed_none(seq![' ', 'm', 'a', 'n', 'a', '.'], " mana "@, seq![5], 0);
    crate::text::lemma_replace_none(seq![' ', 'm', 'a', 'n', 'a', '.'], " mana "@, " ¤(mana) "@);
}

/// What group 1 makes of the middle of phrase 7.
proof fn lemma_phrase_7_group_1()
    ensures
        phrase_group_1(seq![' ', 'm', 'a', 'n', 'a', '.']) == seq![' ', '\u{a4}', '(', 'm', 'a', 'n', 'a', ')', '.'],
{
    reveal(phrase_group_1);
    reveal_strlit(" Mana ");
    reveal_strlit(" Mana,");
    reveal_strlit(" Mana.");
    reveal_strlit(" mana,");
    reveal_strlit(" mana.");
    reveal_strlit(" ¤(Mana) ");
    reveal_strlit(" ¤(Mana),");
    reveal_strlit(" ¤(Mana).");
    reveal_strlit(" ¤(mana),");
    reveal_strlit(" ¤(mana).");
    reveal_strlit("I am");
    reveal_strlit("I'm");
    reveal_strlit("I’m");
    assert(crate::text::witnessed_until(seq![' ', 'm', 'a', 'n', 'a', '.'], " mana."@, seq![], 0, 0)) by { reveal_with_fuel(crate::text::witnessed_until, 2); }
    assert(crate::text::witnessed(seq![' ', 'm', 'a', 'n', 'a', '.'], " mana."@, seq![0, 0, 0, 0, 0, 0], 6)) by { reveal_with_fuel(crate::text::witnessed, 8); }
    assert(seq![' ', 'm', 'a', 'n', 'a', '.'].subrange(0, 6) =~= " mana."@);
    crate::text::lemma_replace_once(seq![' ', 'm', 'a', 'n', 'a', '.'], " mana."@, " ¤(mana)."@, 0, seq![], seq![0, 0, 0, 0, 0, 0]);
    assert(seq![' ', 'm', 'a', 'n', 'a', '.'].subrange(0, 0) + " ¤(mana)."@ + seq![' ', 'm', 'a', 'n', 'a', '.'].subrange(6, 6) =~= seq![' ', '\u{a4}', '(', 'm', 'a', 'n', 'a', ')', '.']);
    assert(crate::text::witnessed(seq![' ', '\u{a4}', '(', 'm', 'a', 'n', 'a', ')', '.'], " mana,"@, seq![1, 0, 0, 0], 0)) by { reveal_with_fuel(crate::text::witnessed, 6); }
    crate::text::lemma_witnessed_none(seq![' ', '\u{a4}', '(', 'm', 'a', 'n', 'a', ')', '.'], " mana,"@, seq![1, 0, 0, 0], 0);
    crate::text::lemma_replace_none(seq![' ', '\u{a4}', '(', 'm', 'a', 'n', 'a', ')', '.'], " mana,"@, " ¤(mana),"@);
    assert(crate::text::witnessed(seq![' ', '\u{a4}', '(', 'm', 'a', 'n', 'a', ')', '.'], " Mana "@, seq![1, 0, 0, 0], 0)) by { reveal_with_fuel(crate::text::witnessed, 6); }
    crate::text::lemma_witnessed_none(seq![' ', '\u{a4}', '(', 'm', 'a', 'n', 'a', ')', '.'], " Mana "@, seq![1, 0, 0, 0], 0);
    crate::text::lemma_replace_none(seq![' ', '\u{a4}', '(', 'm', 'a', 'n', 'a', ')', '.'], " Mana "@, " ¤(Mana) "@);
    assert(crate::text::witnessed(seq![' ', '\u{a4}', '(', 'm', 'a', 'n', 'a', ')', '.'], " Mana."@, seq![1, 0, 0, 0], 0)) by { reveal_with_fuel(crate::text::witnessed, 6); }
    crate::text::lemma_witnessed_none(seq![' ', '\u{a4}', '(', 'm', 'a', 'n', 'a', ')', '.'], " Mana."@, seq![1, 0, 0, 0], 0);
    crate::text::lemma_replace_none(seq![' ', '\u{a4}', '(', 'm', 'a', 'n', 'a', ')', '.'], " Mana."@, " ¤(Mana)."@);
    assert(crate::text::witnessed(seq![' ', '\u{a4}', '(', 'm', 'a', 'n', 'a', ')', '.'], " Mana,"@, seq![1, 0, 0, 0], 0)) by { reveal_with_fuel(crate::text::witnessed, 6); }
    crate::text::lemma_witnessed_none(seq![' ', '\u{a4}', '(', 'm', 'a', 'n', 'a', ')', '.'], " Mana,"@, seq![1, 0, 0, 0], 0);
    crate::text::lemma_replace_none(seq![' ', '\u{a4}', '(', 'm', 'a', 'n', 'a', ')', '.'], " Mana,"@, " ¤(Mana),"@);
    assert(crate::text::witnessed(seq![' ', '\u{a4}', '(', 'm', 'a', 'n', 'a', ')', '.'], "I’m"@, seq![0, 0, 0, 0, 0, 0, 0], 0)) by { reveal_with_fuel(crate::text::witnessed, 9); }
    crate::text::lemma_witnessed_none(seq![' ', '\u{a4}', '(', 'm', 'a', 'n', 'a', ')', '.'], "I’m"@, seq![0, 0, 0, 0, 0, 0, 0], 0);
    crate::text::lemma_replace_none(seq![' ', '\u{a4}', '(', 'm', 'a', 'n', 'a', ')', '.'], "I’m"@, "I am"@);
    assert(crate::text::witnessed(seq![' ', '\u{a4}', '(', 'm', 'a', 'n', 'a', ')', '.'], "I'm"@, seq![0, 0, 0, 0, 0, 0, 0], 0)) by { reveal_with_fuel(crate::text::witnessed, 9); }
    crate::text::lemma_witnessed_none(seq![' ', '\u{a4}', '(', 'm', 'a', 'n', 'a', ')', '.'], "I'm"@, seq![0, 0, 0, 0, 0, 0, 0], 0);
    crate::text::lemma_replace_none(seq![' ', '\u{a4}', '(', 'm', 'a', 'n', 'a', ')', '.'], "I'm"@, "I am"@);
}

/// What group 2 makes of the middle of phrase 7.
proof fn lemma_phrase_7_group_2()
    ensures
        phrase_group_2(seq![' ', '\u{a4}', '(', 'm', 'a', 'n', 'a', ')', '.']) == seq![' ', '\u{a4}', '(', 'm', 'a', 'n', 'a', ')', '.'],
{
    reveal(phrase_group_2);
    reveal_strlit(" I am ");
    reveal_strlit(" I have");
    reveal_strlit(" me ");
    reveal_strlit(" my ");
    reveal_strlit(" ¤(I have)");
    reveal_strlit(" ¤(i am) ");
    reveal_strlit(" ¤(i have)");
    reveal_strlit(" ¤(me) ");
    reveal_strlit(" ¤(my) ");
    reveal_strlit(". I am ");
    reveal_strlit(". I have");
    reveal_strlit(". My ");
    reveal_strlit(". ¤(I am) ");
    reveal_strlit(". ¤(My) ");
    assert(crate::text::witnessed(seq![' ', '\u{a4}', '(', 'm', 'a', 'n', 'a', ')', '.'], ". I am "@, seq![0, 0, 0], 0)) by { reveal_with_fuel(crate::text::witnessed, 5); }
    crate::text::lemma_witnessed_none(seq![' ', '\u{a4}', '(', 'm', 'a', 'n', 'a', ')', '.'], ". I am "@, seq![0, 0, 0], 0);
    crate::text::lemma_replace_none(seq![' ', '\u{a4}', '(', 'm', 'a', 'n', 'a', ')', '.'], ". I am "@, ". ¤(I am) "@);
    assert(crate::text::witnessed(seq![' ', '\u{a4}', '(', 'm', 'a', 'n', 'a', ')', '.'], " I am "@, seq![1, 0, 0, 0], 0)) by { reveal_with_fuel(crate::text::witnessed, 6); }
    crate::text::lemma_witnessed_none(seq![' ', '\u{a4}', '(', 'm', 'a', 'n', 'a', ')', '.'], " I am "@, seq![1, 0, 0, 0], 0);
    crate::text::lemma_replace_none(seq![' ', '\u{a4}', '(', 'm', 'a', 'n', 'a', ')', '.'], " I am "@, " ¤(i am) "@);
    assert(crate::text::witnessed(seq![' ', '\u{a4}', '(', 'm', 'a', 'n', 'a', ')', '.'], " I have"@, seq![1, 0, 0], 0)) by { reveal_with_fuel(crate::text::witnessed, 5); }
    crate::text::lemma_witnessed_none(seq![' ', '\u{a4}', '(', 'm', 'a', 'n', 'a', ')', '.'], " I have"@, seq![1, 0, 0], 0);
    crate::text::lemma_replace_none(seq![' ', '\u{a4}', '(', 'm', 'a', 'n', 'a', ')', '.'], " I have"@, " ¤(i have)"@);
    assert(crate::text::witnessed(seq![' ', '\u{a4}', '(', 'm', 'a', 'n', 'a', ')', '.'], ". I have"@, seq![0, 0], 0)) by { reveal_with_fuel(crate::text::witnessed, 4); }
    crate::text::lemma_witnessed_none(seq![' ', '\u{a4}', '(', 'm', 'a', 'n', 'a', ')', '.'], ". I have"@, seq![0, 0], 0);
    crate::text::lemma_replace_none(seq![' ', '\u{a4}', '(', 'm', 'a', 'n', 'a', ')', '.'], ". I have"@, " ¤(I have)"@);
    assert(crate::text::witnessed(seq![' ', '\u{a4}', '(', 'm', 'a', 'n', 'a', ')', '.'], " my "@, seq![1, 0, 0, 0, 0, 0], 0)) by { reveal_with_fuel(crate::text::witnessed, 8); }
    crate::text::lemma_witnessed_none(seq![' ', '\u{a4}', '(', 'm', 'a', 'n', 'a', ')', '.'], " my "@, seq![1, 0, 0, 0, 0, 0], 0);
    crate::text::lemma_replace_none(seq![' ', '\u{a4}', '(', 'm', 'a', 'n', 'a', ')', '.'], " my "@, " ¤(my) "@);
    assert(crate::text::witnessed(seq![' ', '\u{a4}', '(', 'm', 'a', 'n', 'a', ')', '.'], ". My "@, seq![0, 0, 0, 0, 0], 0)) by { reveal_with_fuel(crate::text::witnessed, 7); }
    crate::text::lemma_witnessed_none(seq![' ', '\u{a4}', '(', 'm', 'a', 'n', 'a', ')', '.'], ". My "@, seq![0, 0, 0, 0, 0], 0);
    crate::text::lemma_replace_none(seq![' ', '\u{a4}', '(', 'm', 'a', 'n', 'a', ')', '.'], ". My "@, ". ¤(My) "@);
    assert(crate::text::witnessed(seq![' ', '\u{a4}', '(', 'm', 'a', 'n', 'a', ')', '.'], " me "@, seq![1, 0, 0, 0, 0, 0], 0)) by { reveal_with_fuel(crate::text::witnessed, 8); }
    crate::text::lemma_witnessed_none(seq![' ', '\u{a4}', '(', 'm', 'a', 'n', 'a', ')', '.'], " me "@, seq![1, 0, 0, 0, 0, 0], 0);
    crate::text::lemma_replace_none(seq![' ', '\u{a4}', '(', 'm', 'a', 'n', 'a', ')', '.'], " me "@, " ¤(me) "@);
}

/// What group 3 makes of the middle of phrase 7.
proof fn lemma_phrase_7_group_3()
    ensures
        phrase_group_3(seq![' ', '\u{a4}', '(', 'm', 'a', 'n', 'a', ')', '.']) == seq![' ', '\u{a4}', '(', 'm', 'a', 'n', 'a', ')', '.'],
{
    reveal(phrase_group_3);
    reveal_strlit(" Me ");
    reveal_strlit(" Me,");
    reveal_strlit(" Me.");
    reveal_strlit(" me,");
    reveal_strlit(" me.");
    reveal_strlit(" ¤(Me) ");
    reveal_strlit(" ¤(Me),");
    reveal_strlit(" ¤(Me).");
    reveal_strlit(" ¤(me),");
    reveal_strlit(" ¤(me).");
    reveal_strlit(". I ");
    reveal_strlit(". ¤(I) ");
    reveal_strlit("\nI ");
    reveal_strlit("\n¤(I) ");
    assert(crate::text::witnessed(seq![' ', '\u{a4}', '(', 'm', 'a', 'n', 'a', ')', '.'], " me,"@, seq![1, 0, 0, 0, 0, 0], 0)) by { reveal_with_fuel(crate::text::witnessed, 8); }
    crate::text::lemma_witnessed_none(seq![' ', '\u{a4}', '(', 'm', 'a', 'n', 'a', ')', '.'], " me,"@, seq![1, 0, 0, 0, 0, 0], 0);
    crate::text::lemma_replace_none(seq![' ', '\u{a4}', '(', 'm', 'a', 'n', 'a', ')', '.'], " me,"@, " ¤(me),"@);
    assert(crate::text::witnessed(seq![' ', '\u{a4}', '(', 'm', 'a', 'n', 'a', ')', '.'], " me."@, seq![1, 0, 0, 0, 0, 0], 0)) by { reveal_with_fuel(crate::text::witnessed, 8); }
    crate::text::lemma_witnessed_none(seq![' ', '\u{a4}', '(', 'm', 'a', 'n', 'a', ')', '.'], " me."@, seq![1, 0, 0, 0, 0, 0], 0);
    crate::text::lemma_replace_none(seq![' ', '\u{a4}', '(', 'm', 'a', 'n', 'a', ')', '.'], " me."@, " ¤(me)."@);
    assert(crate::text::witnessed(seq![' ', '\u{a4}', '(', 'm', 'a', 'n', 'a', ')', '.'], " Me "@, seq![1, 0, 0, 0, 0, 0], 0)) by { reveal_with_fuel(crate::text::witnessed, 8); }
    crate::text::lemma_witnessed_none(seq![' ', '\u{a4}', '(', 'm', 'a', 'n', 'a', ')', '.'], " Me "@, seq![1, 0, 0, 0, 0, 0], 0);
    crate::text::lemma_replace_none(seq![' ', '\u{a4}', '(', 'm', 'a', 'n', 'a', ')', '.'], " Me "@, " ¤(Me) "@);
    assert(crate::text::witnessed(seq![' ', '\u{a4}', '(', 'm', 'a', 'n', 'a', ')', '.'], " Me,"@, seq![1, 0, 0, 0, 0, 0], 0)) by { reveal_with_fuel(crate::text::witnessed, 8); }
    crate::text::lemma_witnessed_none(seq![' ', '\u{a4}', '(', 'm', 'a', 'n', 'a', ')', '.'], " Me,"@, seq![1, 0, 0, 0, 0, 0], 0);
    crate::text::lemma_replace_none(seq![' ', '\u{a4}', '(', 'm', 'a', 'n', 'a', ')', '.'], " Me,"@, " ¤(Me),"@);
    assert(crate::text::witnessed(seq![' ', '\u{a4}', '(', 'm', 'a', 'n', 'a', ')', '.'], " Me."@, seq![1, 0, 0, 0, 0, 0], 0)) by { reveal_with_fuel(crate::text::witnessed, 8); }
    crate::text::lemma_witnessed_none(seq![' ', '\u{a4}', '(', 'm', 'a', 'n', 'a', ')', '.'], " Me."@, seq![1, 0, 0, 0, 0, 0], 0);
    crate::text::lemma_replace_none(seq![' ', '\u{a4}', '(', 'm', 'a', 'n', 'a', ')', '.'], " Me."@, " ¤(Me)."@);
    assert(crate::text::witnessed(seq![' ', '\u{a4}', '(', 'm', 'a', 'n', 'a', ')', '.'], "\nI "@, seq![0, 0, 0, 0, 0, 0, 0], 0)) by { reveal_with_fuel(crate::text::witnessed, 9); }
    crate::text::lemma_witnessed_none(seq![' ', '\u{a4}', '(', 'm', 'a', 'n', 'a', ')', '.'], "\nI "@, seq![0, 0, 0, 0, 0, 0, 0], 0);
    crate::text::lemma_replace_none(seq![' ', '\u{a4}', '(', 'm', 'a', 'n', 'a', ')', '.'], "\nI "@, "\n¤(I) "@);
    assert(crate::text::witnessed(seq![' ', '\u{a4}', '(', 'm', 'a', 'n', 'a', ')', '.'], ". I "@, seq![0, 0, 0, 0, 0, 0], 0)) by { reveal_with_fuel(crate::text::witnessed, 8); }
    crate::text::lemma_witnessed_none(seq![' ', '\u{a4}', '(', 'm', 'a', 'n', 'a', ')', '.'], ". I "@, seq![0, 0, 0, 0, 0, 0], 0);
    crate::text::lemma_replace_none(seq![' ', '\u{a4}', '(', 'm', 'a', 'n', 'a', ')', '.'], ". I "@, ". ¤(I) "@);
}

/// What group 4 makes of the middle of phrase 7.
proof fn lemma_phrase_7_group_4()
    ensures
        phrase_group_4(seq![' ', '\u{a4}', '(', 'm', 'a', 'n', 'a', ')', '.']) == seq![' ', '\u{a4}', '(', 'm', 'a', 'n', 'a', ')', '.'],
{
    reveal(phrase_group_4);
    reveal_strlit(" I ");
    reveal_strlit(" I,");
    reveal_strlit(" I.");
    reveal_strlit(" ¤(i) ");
    reveal_strlit(" ¤(i),");
    reveal_strlit(" ¤(i).");
    reveal_strlit(". I,");
    reveal_strlit(". I.");
    reveal_strlit(". ¤(I),");
    reveal_strlit(". ¤(I). ");
    reveal_strlit("Cards ¤(I am) attached to");
    reveal_strlit("The card ¤(I am) attached to");
    reveal_strlit("cards ¤(I am) attached to");
    reveal_strlit("the card ¤(I am) attached to");
    assert(crate::text::witnessed(seq![' ', '\u{a4}', '(', 'm', 'a', 'n', 'a', ')', '.'], ". I,"@, seq![0, 0, 0, 0, 0, 0], 0)) by { reveal_with_fuel(crate::text::witnessed, 8); }
    crate::text::lemma_witnessed_none(seq![' ', '\u{a4}', '(', 'm', 'a', 'n', 'a', ')', '.'], ". I,"@, seq![0, 0, 0, 0, 0, 0], 0);
    crate::text::lemma_replace_none(seq![' ', '\u{a4}', '(', 'm', 'a', 'n', 'a', ')', '.'], ". I,"@, ". ¤(I),"@);
    assert(crate::text::witnessed(seq![' ', '\u{a4}', '(', 'm', 'a', 'n', 'a', ')', '.'], ". I."@, seq![0, 0, 0, 0, 0, 0], 0)) by { reveal_with_fuel(crate::text::witnessed, 8); }
    crate::text::lemma_witnessed_none(seq![' ', '\u{a4}', '(', 'm', 'a', 'n', 'a', ')', '.'], ". I."@, seq![0, 0, 0, 0, 0, 0], 0);
    crate::text::lemma_replace_none(seq![' ', '\u{a4}', '(', 'm', 'a', 'n', 'a', ')', '.'], ". I."@, ". ¤(I). "@);
    assert(crate::text::witnessed(seq![' ', '\u{a4}', '(', 'm', 'a', 'n', 'a', ')', '.'], " I "@, seq![1, 0, 0, 0, 0, 0, 0], 0)) by { reveal_with_fuel(crate::text::witnessed, 9); }
    crate::text::lemma_witnessed_none(seq![' ', '\u{a4}', '(', 'm', 'a', 'n', 'a', ')', '.'], " I "@, seq![1, 0, 0, 0, 0, 0, 0], 0);
    crate::text::lemma_replace_none(seq![' ', '\u{a4}', '(', 'm', 'a', 'n', 'a', ')', '.'], " I "@, " ¤(i) "@);
    assert(crate::text::witnessed(seq![' ', '\u{a4}', '(', 'm', 'a', 'n', 'a', ')', '.'], " I,"@, seq![1, 0, 0, 0, 0, 0, 0], 0)) by { reveal_with_fuel(crate::text::witnessed, 9); }
    crate::text::lemma_witnessed_none(seq![' ', '\u{a4}', '(', 'm', 'a', 'n', 'a', ')', '.'], " I,"@, seq![1, 0, 0, 0, 0, 0, 0], 0);
    crate::text::lemma_replace_none(seq![' ', '\u{a4}', '(', 'm', 'a', 'n', 'a', ')', '.'], " I,"@, " ¤(i),"@);
    assert(crate::text::witnessed(seq![' ', '\u{a4}', '(', 'm', 'a', 'n', 'a', ')', '.'], " I."@, seq![1, 0, 0, 0, 0, 0, 0], 0)) by { reveal_with_fuel(crate::text::witnessed, 9); }
    crate::text::lemma_witnessed_none(seq![' ', '\u{a4}', '(', 'm', 'a', 'n', 'a', ')', '.'], " I."@, seq![1, 0, 0, 0, 0, 0, 0], 0);
    crate::text::lemma_replace_none(seq![' ', '\u{a4}', '(', 'm', 'a', 'n', 'a', ')', '.'], " I."@, " ¤(i)."@);
    assert(crate::text::witnessed(seq![' ', '\u{a4}', '(', 'm', 'a', 'n', 'a', ')', '.'], "Cards ¤(I am) attached to"@, seq![], 0)) by { reveal_with_fuel(crate::text::witnessed, 2); }
    crate::text::lemma_witnessed_none(seq![' ', '\u{a4}', '(', 'm', 'a', 'n', 'a', ')', '.'], "Cards ¤(I am) attached to"@, seq![], 0);
    crate::text::lemma_replace_none(seq![' ', '\u{a4}', '(', 'm', 'a', 'n', 'a', ')', '.'], "Cards ¤(I am) attached to"@, "The card ¤(I am) attached to"@);
    assert(crate::text::witnessed(seq![' ', '\u{a4}', '(', 'm', 'a', 'n', 'a', ')', '.'], "cards ¤(I am) attached to"@, seq![], 0)) by { reveal_with_fuel(crate::text::witnessed, 2); }
    crate::text::lemma_witnessed_none(seq![' ', '\u{a4}', '(', 'm', 'a', 'n', 'a', ')', '.'], "cards ¤(I am) attached to"@, seq![], 0);
    crate::text::lemma_replace_none(seq![' ', '\u{a4}', '(', 'm', 'a', 'n', 'a', ')', '.'], "cards ¤(I am) attached to"@, "the card ¤(I am) attached to"@);
}

/// Between digits, phrase 7 becomes what the card text makes of it.
proof fn lemma_phrase_7(x: Seq<char>, y: Seq<char>)
    requires
        all_digits(x),
        all_digits(y),
        trim(x + " mana."@ + y) == x + " mana."@ + y,
    ensures
        phrase_commands(x + " mana."@ + y) == Some(x + seq![' ', '\u{a4}', '(', 'm', 'a', 'n', 'a', ')', '.'] + y),
{
    reveal_strlit(" mana.");
    assert(" mana."@ =~= seq![' ', 'm', 'a', 'n', 'a', '.']);
    reveal_strlit("Card with");
    reveal_strlit("card with");
    reveal_strlit("Cards with");
    reveal_strlit("cards with");
    let m0 = seq![' ', 'm', 'a', 'n', 'a', '.'];
    lemma_group_framed_0(x, m0, y);
    lemma_phrase_7_group_0();
    let m1 = phrase_group_0(m0);
    lemma_group_framed_1(x, m1, y);
    lemma_phrase_7_group_1();
    let m2 = phrase_group_1(m1);
    lemma_group_framed_2(x, m2, y);
    lemma_phrase_7_group_2();
    let m3 = phrase_group_2(m2);
    lemma_group_framed_3(x, m3, y);
    lemma_phrase_7_group_3();
    let m4 = phrase_group_3(m3);
    lemma_group_framed_4(x, m4, y);
    lemma_phrase_7_group_4();
    let m5 = phrase_group_4(m4);
    assert(crate::text::witnessed(seq![' ', '\u{a4}', '(', 'm', 'a', 'n', 'a', ')', '.'], "Card with"@, seq![0], 0)) by { reveal_with_fuel(crate::text::witnessed, 3); }
    crate::text::lemma_witnessed_none(seq![' ', '\u{a4}', '(', 'm', 'a', 'n', 'a', ')', '.'], "Card with"@, seq![0], 0);
    assert(digit_free("Card with"@));
    crate::text::lemma_replace_framed(x, seq![' ', '\u{a4}', '(', 'm', 'a', 'n', 'a', ')', '.'], y, "Card with"@, "Card with"@);
    assert(with_marker(WithPhrase::Card) == "Card with"@);
    assert(crate::text::witnessed(seq![' ', '\u{a4}', '(', 'm', 'a', 'n', 'a', ')', '.'], "card with"@, seq![0], 0)) by { reveal_with_fuel(crate::text::witnessed, 3); }
    crate::text::lemma_witnessed_none(seq![' ', '\u{a4}', '(', 'm', 'a', 'n', 'a', ')', '.'], "card with"@, seq![0], 0);
    assert(digit_free("card with"@));
    crate::text::lemma_replace_framed(x, seq![' ', '\u{a4}', '(', 'm', 'a', 'n', 'a', ')', '.'], y, "card with"@, "card with"@);
    assert(with_marker(WithPhrase::CardLower) == "card with"@);
    assert(crate::text::witnessed(seq![' ', '\u{a4}', '(', 'm', 'a', 'n', 'a', ')', '.'], "Cards with"@, seq![], 0)) by { reveal_with_fuel(crate::text::witnessed, 2); }
    crate::text::lemma_witnessed_none(seq![' ', '\u{a4}', '(', 'm', 'a', 'n', 'a', ')', '.'], "Cards with"@, seq![], 0);
    assert(digit_free("Cards with"@));
    crate::text::lemma_replace_framed(x, seq![' ', '\u{a4}', '(', 'm', 'a', 'n', 'a', ')', '.'], y, "Cards with"@, "Cards with"@);
    assert(with_marker(WithPhrase::Cards) == "Cards with"@);
    assert(crate::text::witnessed(seq![' ', '\u{a4}', '(', 'm', 'a', 'n', 'a', ')', '.'], "cards with"@, seq![], 0)) by { reveal_with_fuel(crate::text::witnessed, 2); }
    crate::text::lemma_witnessed_none(seq![' ', '\u{a4}', '(', 'm', 'a', 'n', 'a', ')', '.'], "cards with"@, seq![], 0);
    assert(digit_free("cards with"@));
    crate::text::lemma_replace_framed(x, seq![' ', '\u{a4}', '(', 'm', 'a', 'n', 'a', ')', '.'], y, "cards with"@, "cards with"@);
    assert(with_marker(WithPhrase::CardsLower) == "cards with"@);
}

/// What group 0 makes of the middle of phrase 8.
proof fn lemma_phrase_8_group_0()
    ensures
        phrase_group_0(seq![' ', 'm', 'a', 'n', 'a', ',']) == seq![' ', 'm', 'a', 'n', 'a', ','],
{
    reveal(phrase_group_0);
    reveal_strlit(" ");
    reveal_strlit("  ");
    reveal_strlit(" mana ");
    reveal_strlit(" ¤(mana) ");
    reveal_strlit("Boost");
    reveal_strlit("Experience");
    reveal_strlit("\n ");
    reveal_strlit("boost");
    reveal_strlit("experience");
    reveal_strlit("¤(Boost)");
    reveal_strlit("¤(Xp)");
    reveal_strlit("¤(boost)");
    reveal_strlit("¤(xp)");
    assert(crate::text::witnessed(seq![' ', 'm', 'a', 'n', 'a', ','], "\n "@, seq![0, 0, 0, 0, 0], 0)) by { reveal_with_fuel(crate::text::witnessed, 7); }
    crate::text::lemma_witnessed_none(seq![' ', 'm', 'a', 'n', 'a', ','], "\n "@, seq![0, 0, 0, 0, 0], 0);
    crate::text::lemma_replace_none(seq![' ', 'm', 'a', 'n', 'a', ','], "\n "@, " "@);
    assert(crate::text::witnessed(seq![' ', 'm', 'a', 'n', 'a', ','], "  "@, seq![1, 0, 0, 0, 0], 0)) by { reveal_with_fuel(crate::text::witnessed, 7); }
    crate::text::lemma_witnessed_none(seq![' ', 'm', 'a', 'n', 'a', ','], "  "@, seq![1, 0, 0, 0, 0], 0);
    crate::text::lemma_replace_none(seq![' ', 'm', 'a', 'n', 'a', ','], "  "@, " "@);
    assert(crate::text::witnessed(seq![' ', 'm', 'a', 'n', 'a', ','], "Boost"@, seq![0, 0], 0)) by { reveal_with_fuel(crate::text::witnessed, 4); }
    crate::text::lemma_witnessed_none(seq![' ', 'm', 'a', 'n', 'a', ','], "Boost"@, seq![0, 0], 0);
    crate::text::lemma_replace_none(seq![' ', 'm', 'a', 'n', 'a', ','], "Boost"@, "¤(Boost)"@);
    assert(crate::text::witnessed(seq![' ', 'm', 'a', 'n', 'a', ','], "boost"@, seq![0, 0], 0)) by { reveal_with_fuel(crate::text::witnessed, 4); }
    crate::text::lemma_witnessed_none(seq![' ', 'm', 'a', 'n', 'a', ','], "boost"@, seq![0, 0], 0);
    crate::text::lemma_replace_none(seq![' ', 'm', 'a', 'n', 'a', ','], "boost"@, "¤(boost)"@);
    assert(crate::text::witnessed(seq![' ', 'm', 'a', 'n', 'a', ','], "experience"@, seq![], 0)) by { reveal_with_fuel(crate::text::witnessed, 2); }
    crate::text::lemma_witnessed_none(seq![' ', 'm', 'a', 'n', 'a', ','], "experience"@, seq![], 0);
    crate::text::lemma_replace_none(seq![' ', 'm', 'a', 'n', 'a', ','], "experience"@, "¤(xp)"@);
    assert(crate::text::witnessed(seq![' ', 'm', 'a', 'n', 'a', ','], "Experience"@, seq![], 0)) by { reveal_with_fuel(crate::text::witnessed, 2); }
    crate::text::lemma_witnessed_none(seq![' ', 'm', 'a', 'n', 'a', ','], "Experience"@, seq![], 0);
    crate::text::lemma_replace_none(seq![' ', 'm', 'a', 'n', 'a', ','], "Experience"@, "¤(Xp)"@);
    assert(crate::text::witnessed(seq![' ', 'm', 'a', 'n', 'a', ','], " mana "@, seq![5], 0)) by { reveal_with_fuel(crate::text::witnessed, 3); }
    crate::text::lemma_witnessed_none(seq![' ', 'm', 'a', 'n', 'a', ','], " mana "@, seq![5], 0);
    crate::text::lemma_replace_none(seq![' ', 'm', 'a', 'n', 'a', ','], " mana "@, " ¤(mana) "@);
}

/// What group 1 makes of the middle of phrase 8.
proof fn lemma_phrase_8_group_1()
    ensures
        phrase_group_1(seq![' ', 'm', 'a', 'n', 'a', ',']) == seq![' ', '\u{a4}', '(', 'm', 'a', 'n', 'a', ')', ','],
{
    reveal(phrase_group_1);
    reveal_strlit(" Mana ");
    reveal_strlit(" Mana,");
    reveal_strlit(" Mana.");
    reveal_strlit(" mana,");
    reveal_strlit(" mana.");
    reveal_strlit(" ¤(Mana) ");
    reveal_strlit(" ¤(Mana),");
    reveal_strlit(" ¤(Mana).");
    reveal_strlit(" ¤(mana),");
    reveal_strlit(" ¤(mana).");
    reveal_strlit("I am");
    reveal_strlit("I'm");
    reveal_strlit("I’m");
    assert(crate::text::witnessed(seq![' ', 'm', 'a', 'n', 'a', ','], " mana."@, seq![5], 0)) by { reveal_with_fuel(crate::text::witnessed, 3); }
    crate::text::lemma_witnessed_none(seq![' ', 'm', 'a', 'n', 'a', ','], " mana."@, seq![5], 0);
    crate::text::lemma_replace_none(seq![' ', 'm', 'a', 'n', 'a', ','], " mana."@, " ¤(mana)."@);
    assert(crate::text::witnessed_until(seq![' ', 'm', 'a', 'n', 'a', ','], " mana,"@, seq![], 0, 0)) by { reveal_with_fuel(crate::text::witnessed_until, 2); }
    assert(crate::text::witnessed(seq![' ', 'm', 'a', 'n', 'a', ','], " mana,"@, seq![0, 0, 0, 0, 0, 0], 6)) by { reveal_with_fuel(crate::text::witnessed, 8); }
    assert(seq![' ', 'm', 'a', 'n', 'a', ','].subrange(0, 6) =~= " mana,"@);
    crate::text::lemma_replace_once(seq![' ', 'm', 'a', 'n', 'a', ','], " mana,"@, " ¤(mana),"@, 0, seq![], seq![0, 0, 0, 0, 0, 0]);
    assert(seq![' ', 'm', 'a', 'n', 'a', ','].subrange(0, 0) + " ¤(mana),"@ + seq![' ', 'm', 'a', 'n', 'a', ','].subrange(6, 6) =~= seq![' ', '\u{a4}', '(', 'm', 'a', 'n', 'a', ')', ',']);
    assert(crate::text::witnessed(seq![' ', '\u{a4}', '(', 'm', 'a', 'n', 'a', ')', ','], " Mana "@, seq![1, 0, 0, 0], 0)) by { reveal_with_fuel(crate::text::witnessed, 6); }
    crate::text::lemma_witnessed_none(seq![' ', '\u{a4}', '(', 'm', 'a', 'n', 'a', ')', ','], " Mana "@, seq![1, 0, 0, 0], 0);
    crate::text::lemma_replace_none(seq![' ', '\u{a4}', '(', 'm', 'a', 'n', 'a', ')', ','], " Mana "@, " ¤(Mana) "@);
    assert(crate::text::witnessed(seq![' ', '\u{a4}', '(', 'm', 'a', 'n', 'a', ')', ','], " Mana."@, seq![1, 0, 0, 0], 0)) by { reveal_with_fuel(crate::text::witnessed, 6); }
    crate::text::lemma_witnessed_none(seq![' ', '\u{a4}', '(', 'm', 'a', 'n', 'a', ')', ','], " Mana."@, seq![1, 0, 0, 0], 0);
    crate::text::lemma_replace_none(seq![' ', '\u{a4}', '(', 'm', 'a', 'n', 'a', ')', ','], " Mana."@, " ¤(Mana)."@);
    assert(crate::text::witnessed(seq![' ', '\u{a4}', '(', 'm', 'a', 'n', 'a', ')', ','], " Mana,"@, seq![1, 0, 0, 0], 0)) by { reveal_with_fuel(crate::text::witnessed, 6); }
    crate::text::lemma_witnessed_none(seq![' ', '\u{a4}', '(', 'm', 'a', 'n', 'a', ')', ','], " Mana,"@, seq![1, 0, 0, 0], 0);
    crate::text::lemma_replace_none(seq![' ', '\u{a4}', '(', 'm', 'a', 'n', 'a', ')', ','], " Mana,"@, " ¤(Mana),"@);
    assert(crate::text::witnessed(seq![' ', '\u{a4}', '(', 'm', 'a', 'n', 'a', ')', ','], "I’m"@, seq![0, 0, 0, 0, 0, 0, 0], 0)) by { reveal_with_fuel(crate::text::witnessed, 9); }
    crate::text::lemma_witnessed_none(seq![' ', '\u{a4}', '(', 'm', 'a', 'n', 'a', ')', ','], "I’m"@, seq![0, 0, 0, 0, 0, 0, 0], 0);
    crate::text::lemma_replace_none(seq![' ', '\u{a4}', '(', 'm', 'a', 'n', 'a', ')', ','], "I’m"@, "I am"@);
    assert(crate::text::witnessed(seq![' ', '\u{a4}', '(', 'm', 'a', 'n', 'a', ')', ','], "I'm"@, seq![0, 0, 0, 0, 0, 0, 0], 0)) by { reveal_with_fuel(crate::text::witnessed, 9); }
    crate::text::lemma_witnessed_none(seq![' ', '\u{a4}', '(', 'm', 'a', 'n', 'a', ')', ','], "I'm"@, seq![0, 0, 0, 0, 0, 0, 0], 0);
    crate::text::lemma_replace_none(seq![' ', '\u{a4}', '(', 'm', 'a', 'n', 'a', ')', ','], "I'm"@, "I am"@);
}

/// What group 2 makes of the middle of phrase 8.
proof fn lemma_phrase_8_group_2()
    ensures
        phrase_group_2(seq![' ', '\u{a4}', '(', 'm', 'a', 'n', 'a', ')', ',']) == seq![' ', '\u{a4}', '(', 'm', 'a', 'n', 'a', ')', ','],
{
    reveal(phrase_group_2);
    reveal_strlit(" I am ");
    reveal_strlit(" I have");
    reveal_strlit(" me ");
    reveal_strlit(" my ");
    reveal_strlit(" ¤(I have)");
    reveal_strlit(" ¤(i am) ");
    reveal_strlit(" ¤(i have)");
    reveal_strlit(" ¤(me) ");
    reveal_strlit(" ¤(my) ");
    reveal_strlit(". I am ");
    reveal_strlit(". I have");
    reveal_strlit(". My ");
    reveal_strlit(". ¤(I am) ");
    reveal_strlit(". ¤(My) ");
    assert(crate::text::witnessed(seq![' ', '\u{a4}', '(', 'm', 'a', 'n', 'a', ')', ','], ". I am "@, seq![0, 0, 0], 0)) by { reveal_with_fuel(crate::text::witnessed, 5); }
    crate::text::lemma_witnessed_none(seq![' ', '\u{a4}', '(', 'm', 'a', 'n', 'a', ')', ','], ". I am "@, seq![0, 0, 0], 0);
    crate::text::lemma_replace_none(seq![' ', '\u{a4}', '(', 'm', 'a', 'n', 'a', ')', ','], ". I am "@, ". ¤(I am) "@);
    assert(crate::text::witnessed(seq![' ', '\u{a4}', '(', 'm', 'a', 'n', 'a', ')', ','], " I am "@, seq![1, 0, 0, 0], 0)) by { reveal_with_fuel(crate::text::witnessed, 6); }
    crate::text::lemma_witnessed_none(seq![' ', '\u{a4}', '(', 'm', 'a', 'n', 'a', ')', ','], " I am "@, seq![1, 0, 0, 0], 0);
    crate::text::lemma_replace_none(seq![' ', '\u{a4}', '(', 'm', 'a', 'n', 'a', ')', ','], " I am "@, " ¤(i am) "@);
    assert(crate::text::witnessed(seq![' ', '\u{a4}', '(', 'm', 'a', 'n', 'a', ')', ','], " I have"@, seq![1, 0, 0], 0)) by { reveal_with_fuel(crate::text::witnessed, 5); }
    crate::text::lemma_witnessed_none(seq![' ', '\u{a4}', '(', 'm', 'a', 'n', 'a', ')', ','], " I have"@, seq![1, 0, 0], 0);
    crate::text::lemma_replace_none(seq![' ', '\u{a4}', '(', 'm', 'a', 'n', 'a', ')', ','], " I have"@, " ¤(i have)"@);
    assert(crate::text::witnessed(seq![' ', '\u{a4}', '(', 'm', 'a', 'n', 'a', ')', ','], ". I have"@, seq![0, 0], 0)) by { reveal_with_fuel(crate::text::witnessed, 4); }
    crate::text::lemma_witnessed_none(seq![' ', '\u{a4}', '(', 'm', 'a', 'n', 'a', ')', ','], ". I have"@, seq![0, 0], 0);
    crate::text::lemma_replace_none(seq![' ', '\u{a4}', '(', 'm', 'a', 'n', 'a', ')', ','], ". I have"@, " ¤(I have)"@);
    assert(crate::text::witnessed(seq![' ', '\u{a4}', '(', 'm', 'a', 'n', 'a', ')', ','], " my "@, seq![1, 0, 0, 0, 0, 0], 0)) by { reveal_with_fuel(crate::text::witnessed, 8); }
    crate::text::lemma_witnessed_none(seq![' ', '\u{a4}', '(', 'm', 'a', 'n', 'a', ')', ','], " my "@, seq![1, 0, 0, 0, 0, 0], 0);
    crate::text::lemma_replace_none(seq![' ', '\u{a4}', '(', 'm', 'a', 'n', 'a', ')', ','], " my "@, " ¤(my) "@);
    assert(crate::text::witnessed(seq![' ', '\u{a4}', '(', 'm', 'a', 'n', 'a', ')', ','], ". My "@, seq![0, 0, 0, 0, 0], 0)) by { reveal_with_fuel(crate::text::witnessed, 7); }
    crate::text::lemma_witnessed_none(seq![' ', '\u{a4}', '(', 'm', 'a', 'n', 'a', ')', ','], ". My "@, seq![0, 0, 0, 0, 0], 0);
    crate::text::lemma_replace_none(seq![' ', '\u{a4}', '(', 'm', 'a', 'n', 'a', ')', ','], ". My "@, ". ¤(My) "@);
    assert(crate::text::witnessed(seq![' ', '\u{a4}', '(', 'm', 'a', 'n', 'a', ')', ','], " me "@, seq![1, 0, 0, 0, 0, 0], 0)) by { reveal_with_fuel(crate::text::witnessed, 8); }
    crate::text::lemma_witnessed_none(seq![' ', '\u{a4}', '(', 'm', 'a', 'n', 'a', ')', ','], " me "@, seq![1, 0, 0, 0, 0, 0], 0);
    crate::text::lemma_replace_none(seq![' ', '\u{a4}', '(', 'm', 'a', 'n', 'a', ')', ','], " me "@, " ¤(me) "@);
}

/// What group 3 makes of the middle of phrase 8.
proof fn lemma_phrase_8_group_3()
    ensures
        phrase_group_3(seq![' ', '\u{a4}', '(', 'm', 'a', 'n', 'a', ')', ',']) == seq![' ', '\u{a4}', '(', 'm', 'a', 'n', 'a', ')', ','],
{
    reveal(phrase_group_3);
    reveal_strlit(" Me ");
    reveal_strlit(" Me,");
    reveal_strlit(" Me.");
    reveal_strlit(" me,");
    reveal_strlit(" me.");
    reveal_strlit(" ¤(Me) ");
    reveal_strlit(" ¤(Me),");
    reveal_strlit(" ¤(Me).");
    reveal_strlit(" ¤(me),");
    reveal_strlit(" ¤(me).");
    reveal_strlit(". I ");
    reveal_strlit(". ¤(I) ");
    reveal_strlit("\nI ");
    reveal_strlit("\n¤(I) ");
    assert(crate::text::witnessed(seq![' ', '\u{a4}', '(', 'm', 'a', 'n', 'a', ')', ','], " me,"@, seq![1, 0, 0, 0, 0, 0], 0)) by { reveal_with_fuel(crate::text::witnessed, 8); }
    crate::text::lemma_witnessed_none(seq![' ', '\u{a4}', '(', 'm', 'a', 'n', 'a', ')', ','], " me,"@, seq![1, 0, 0, 0, 0, 0], 0);
    crate::text::lemma_replace_none(seq![' ', '\u{a4}', '(', 'm', 'a', 'n', 'a', ')', ','], " me,"@, " ¤(me),"@);
    assert(crate::text::witnessed(seq![' ', '\u{a4}', '(', 'm', 'a', 'n', 'a', ')', ','], " me."@, seq![1, 0, 0, 0, 0, 0], 0)) by { reveal_with_fuel(crate::text::witnessed, 8); }
    crate::text::lemma_witnessed_none(seq![' ', '\u{a4}', '(', 'm', 'a', 'n', 'a', ')', ','], " me."@, seq![1, 0, 0, 0, 0, 0], 0);
    crate::text::lemma_replace_none(seq![' ', '\u{a4}', '(', 'm', 'a', 'n', 'a', ')', ','], " me."@, " ¤(me)."@);
    assert(crate::text::witnessed(seq![' ', '\u{a4}', '(', 'm', 'a', 'n', 'a', ')', ','], " Me "@, seq![1, 0, 0, 0, 0, 0], 0)) by { reveal_with_fuel(crate::text::witnessed, 8); }
    crate::text::lemma_witnessed_none(seq![' ', '\u{a4}', '(', 'm', 'a', 'n', 'a', ')', ','], " Me "@, seq![1, 0, 0, 0, 0, 0], 0);
    crate::text::lemma_replace_none(seq![' ', '\u{a4}', '(', 'm', 'a', 'n', 'a', ')', ','], " Me "@, " ¤(Me) "@);
    assert(crate::text::witnessed(seq![' ', '\u{a4}', '(', 'm', 'a', 'n', 'a', ')', ','], " Me,"@, seq![1, 0, 0, 0, 0, 0], 0)) by { reveal_with_fuel(crate::text::witnessed, 8); }
    crate::text::lemma_witnessed_none(seq![' ', '\u{a4}', '(', 'm', 'a', 'n', 'a', ')', ','], " Me,"@, seq![1, 0, 0, 0, 0, 0], 0);
    crate::text::lemma_replace_none(seq![' ', '\u{a4}', '(', 'm', 'a', 'n', 'a', ')', ','], " Me,"@, " ¤(Me),"@);
    assert(crate::text::witnessed(seq![' ', '\u{a4}', '(', 'm', 'a', 'n', 'a', ')', ','], " Me."@, seq![1, 0, 0, 0, 0, 0], 0)) by { reveal_with_fuel(crate::text::witnessed, 8); }
    crate::text::lemma_witnessed_none(seq![' ', '\u{a4}', '(', 'm', 'a', 'n', 'a', ')', ','], " Me."@, seq![1, 0, 0, 0, 0, 0], 0);
    crate::text::lemma_replace_none(seq![' ', '\u{a4}', '(', 'm', 'a', 'n', 'a', ')', ','], " Me."@, " ¤(Me)."@);
    assert(crate::text::witnessed(seq![' ', '\u{a4}', '(', 'm', 'a', 'n', 'a', ')', ','], "\nI "@, seq![0, 0, 0, 0, 0, 0, 0], 0)) by { reveal_with_fuel(crate::text::witnessed, 9); }
    crate::text::lemma_witnessed_none(seq![' ', '\u{a4}', '(', 'm', 'a', 'n', 'a', ')', ','], "\nI "@, seq![0, 0, 0, 0, 0, 0, 0], 0);
    crate::text::lemma_replace_none(seq![' ', '\u{a4}', '(', 'm', 'a', 'n', 'a', ')', ','], "\nI "@, "\n¤(I) "@);
    assert(crate::text::witnessed(seq![' ', '\u{a4}', '(', 'm', 'a', 'n', 'a', ')', ','], ". I "@, seq![0, 0, 0, 0, 0, 0], 0)) by { reveal_with_fuel(crate::text::witnessed, 8); }
    crate::text::lemma_witnessed_none(seq![' ', '\u{a4}', '(', 'm', 'a', 'n', 'a', ')', ','], ". I "@, seq![0, 0, 0, 0, 0, 0], 0);
    crate::text::lemma_replace_none(seq![' ', '\u{a4}', '(', 'm', 'a', 'n', 'a', ')', ','], ". I "@, ". ¤(I) "@);
}

/// What group 4 makes of the middle of phrase 8.
proof fn lemma_phrase_8_group_4()
    ensures
        phrase_group_4(seq![' ', '\u{a4}', '(', 'm', 'a', 'n', 'a', ')', ',']) == seq![' ', '\u{a4}', '(', 'm', 'a', 'n', 'a', ')', ','],
{
    reveal(phrase_group_4);
    reveal_strlit(" I ");
    reveal_strlit(" I,");
    reveal_strlit(" I.");
    reveal_strlit(" ¤(i) ");
    reveal_strlit(" ¤(i),");
    reveal_strlit(" ¤(i).");
    reveal_strlit(". I,");
    reveal_strlit(". I.");
    reveal_strlit(". ¤(I),");
    reveal_strlit(". ¤(I). ");
    reveal_strlit("Cards ¤(I am) attached to");
    reveal_strlit("The card ¤(I am) attached to");
    reveal_strlit("cards ¤(I am) attached to");
    reveal_strlit("the card ¤(I am) attached to");
    assert(crate::text::witnessed(seq![' ', '\u{a4}', '(', 'm', 'a', 'n', 'a', ')', ','], ". I,"@, seq![0, 0, 0, 0, 0, 0], 0)) by { reveal_with_fuel(crate::text::witnessed, 8); }
    crate::text::lemma_witnessed_none(seq![' ', '\u{a4}', '(', 'm', 'a', 'n', 'a', ')', ','], ". I,"@, seq![0, 0, 0, 0, 0, 0], 0);
    crate::text::lemma_replace_none(seq![' ', '\u{a4}', '(', 'm', 'a', 'n', 'a', ')', ','], ". I,"@, ". ¤(I),"@);
    assert(crate::text::witnessed(seq![' ', '\u{a4}', '(', 'm', 'a', 'n', 'a', ')', ','], ". I."@, seq![0, 0, 0, 0, 0, 0], 0)) by { reveal_with_fuel(crate::text::witnessed, 8); }
    crate::text::lemma_witnessed_none(seq![' ', '\u{a4}', '(', 'm', 'a', 'n', 'a', ')', ','], ". I."@, seq![0, 0, 0, 0, 0, 0], 0);
    crate::text::lemma_replace_none(seq![' ', '\u{a4}', '(', 'm', 'a', 'n', 'a', ')', ','], ". I."@, ". ¤(I). "@);
    assert(crate::text::witnessed(seq![' ', '\u{a4}', '(', 'm', 'a', 'n', 'a', ')', ','], " I "@, seq![1, 0, 0, 0, 0, 0, 0], 0)) by { reveal_with_fuel(crate::text::witnessed, 9); }
    crate::text::lemma_witnessed_none(seq![' ', '\u{a4}', '(', 'm', 'a', 'n', 'a', ')', ','], " I "@, seq![1, 0, 0, 0, 0, 0, 0], 0);
    crate::text::lemma_replace_none(seq![' ', '\u{a4}', '(', 'm', 'a', 'n', 'a', ')', ','], " I "@, " ¤(i) "@);
    assert(crate::text::witnessed(seq![' ', '\u{a4}', '(', 'm', 'a', 'n', 'a', ')', ','], " I,"@, seq![1, 0, 0, 0, 0, 0, 0], 0)) by { reveal_with_fuel(crate::text::witnessed, 9); }
    crate::text::lemma_witnessed_none(seq![' ', '\u{a4}', '(', 'm', 'a', 'n', 'a', ')', ','], " I,"@, seq![1, 0, 0, 0, 0, 0, 0], 0);
    crate::text::lemma_replace_none(seq![' ', '\u{a4}', '(', 'm', 'a', 'n', 'a', ')', ','], " I,"@, " ¤(i),"@);
    assert(crate::text::witnessed(seq![' ', '\u{a4}', '(', 'm', 'a', 'n', 'a', ')', ','], " I."@, seq![1, 0, 0, 0, 0, 0, 0], 0)) by { reveal_with_fuel(crate::text::witnessed, 9); }
    crate::text::lemma_witnessed_none(seq![' ', '\u{a4}', '(', 'm', 'a', 'n', 'a', ')', ','], " I."@, seq![1, 0, 0, 0, 0, 0, 0], 0);
    crate::text::lemma_replace_none(seq![' ', '\u{a4}', '(', 'm', 'a', 'n', 'a', ')', ','], " I."@, " ¤(i)."@);
    assert(crate::text::witnessed(seq![' ', '\u{a4}', '(', 'm', 'a', 'n', 'a', ')', ','], "Cards ¤(I am) attached to"@, seq![], 0)) by { reveal_with_fuel(crate::text::witnessed, 2); }
    crate::text::lemma_witnessed_none(seq![' ', '\u{a4}', '(', 'm', 'a', 'n', 'a', ')', ','], "Cards ¤(I am) attached to"@, seq![], 0);
    crate::text::lemma_replace_none(seq![' ', '\u{a4}', '(', 'm', 'a', 'n', 'a', ')', ','], "Cards ¤(I am) attached to"@, "The card ¤(I am) attached to"@);
    assert(crate::text::witnessed(seq![' ', '\u{a4}', '(', 'm', 'a', 'n', 'a', ')', ','], "cards ¤(I am) attached to"@, seq![], 0)) by { reveal_with_fuel(crate::text::witnessed, 2); }
    crate::text::lemma_witnessed_none(seq![' ', '\u{a4}', '(', 'm', 'a', 'n', 'a', ')', ','], "cards ¤(I am) attached to"@, seq![], 0);
    crate::text::lemma_replace_none(seq![' ', '\u{a4}', '(', 'm', 'a', 'n', 'a', ')', ','], "cards ¤(I am) attached to"@, "the card ¤(I am) attached to"@);
}

/// Between digits, phrase 8 becomes what the card text makes of it.
proof fn lemma_phrase_8(x: Seq<char>, y: Seq<char>)
    requires
        all_digits(x),
        all_digits(y),
        trim(x + " mana,"@ + y) == x + " mana,"@ + y,
    ensures
        phrase_commands(x + " mana,"@ + y) == Some(x + seq![' ', '\u{a4}', '(', 'm', 'a', 'n', 'a', ')', ','] + y),
{
    reveal_strlit(" mana,");
    assert(" mana,"@ =~= seq![' ', 'm', 'a', 'n', 'a', ',']);
    reveal_strlit("Card with");
    reveal_strlit("card with");
    reveal_strlit("Cards with");
    reveal_strlit("cards with");
    let m0 = seq![' ', 'm', 'a', 'n', 'a', ','];
    lemma_group_framed_0(x, m0, y);
    lemma_phrase_8_group_0();
    let m1 = phrase_group_0(m0);
    lemma_group_framed_1(x, m1, y);
    lemma_phrase_8_group_1();
    let m2 = phrase_group_1(m1);
    lemma_group_framed_2(x, m2, y);
    lemma_phrase_8_group_2();
    let m3 = phrase_group_2(m2);
    lemma_group_framed_3(x, m3, y);
    lemma_phrase_8_group_3();
    let m4 = phrase_group_3(m3);
    lemma_group_framed_4(x, m4, y);
    lemma_phrase_8_group_4();
    let m5 = phrase_group_4(m4);
    assert(crate::text::witnessed(seq![' ', '\u{a4}', '(', 'm', 'a', 'n', 'a', ')', ','], "Card with"@, seq![0], 0)) by { reveal_with_fuel(crate::text::witnessed, 3); }
    crate::text::lemma_witnessed_none(seq![' ', '\u{a4}', '(', 'm', 'a', 'n', 'a', ')', ','], "Card with"@, seq![0], 0);
    assert(digit_free("Card with"@));
    crate::text::lemma_replace_framed(x, seq![' ', '\u{a4}', '(', 'm', 'a', 'n', 'a', ')', ','], y, "Card with"@, "Card with"@);
    assert(with_marker(WithPhrase::Card) == "Card with"@);
    assert(crate::text::witnessed(seq![' ', '\u{a4}', '(', 'm', 'a', 'n', 'a', ')', ','], "card with"@, seq![0], 0)) by { reveal_with_fuel(crate::text::witnessed, 3); }
    crate::text::lemma_witnessed_none(seq![' ', '\u{a4}', '(', 'm', 'a', 'n', 'a', ')', ','], "card with"@, seq![0], 0);
    assert(digit_free("card with"@));
    crate::text::lemma_replace_framed(x, seq![' ', '\u{a4}', '(', 'm', 'a', 'n', 'a', ')', ','], y, "card with"@, "card with"@);
    assert(with_marker(WithPhrase::CardLower) == "card with"@);
    assert(crate::text::witnessed(seq![' ', '\u{a4}', '(', 'm', 'a', 'n', 'a', ')', ','], "Cards with"@, seq![], 0)) by { reveal_with_fuel(crate::text::witnessed, 2); }
    crate::text::lemma_witnessed_none(seq![' ', '\u{a4}', '(', 'm', 'a', 'n', 'a', ')', ','], "Cards with"@, seq![], 0);
    assert(digit_free("Cards with"@));
    crate::text::lemma_replace_framed(x, seq![' ', '\u{a4}', '(', 'm', 'a', 'n', 'a', ')', ','], y, "Cards with"@, "Cards with"@);
    assert(with_marker(WithPhrase::Cards) == "Cards with"@);
    assert(crate::text::witnessed(seq![' ', '\u{a4}', '(', 'm', 'a', 'n', 'a', ')', ','], "cards with"@, seq![], 0)) by { reveal_with_fuel(crate::text::witnessed, 2); }
    crate::text::lemma_witnessed_none(seq![' ', '\u{a4}', '(', 'm', 'a', 'n', 'a', ')', ','], "cards with"@, seq![], 0);
    assert(digit_free("cards with"@));
    crate::text::lemma_replace_framed(x, seq![' ', '\u{a4}', '(', 'm', 'a', 'n', 'a', ')', ','], y, "cards with"@, "cards with"@);
    assert(with_marker(WithPhrase::CardsLower) == "cards with"@);
}

/// What group 0 makes of the middle of phrase 9.
proof fn lemma_phrase_9_group_0()
    ensures
        phrase_group_0(seq![' ', 'M', 'a', 'n', 'a', ' ']) == seq![' ', 'M', 'a', 'n', 'a', ' '],
{
    reveal(phrase_group_0);
    reveal_strlit(" ");
    reveal_strlit("  ");
    reveal_strlit(" mana ");
    reveal_strlit(" ¤(mana) ");
    reveal_strlit("Boost");
    reveal_strlit("Experience");
    reveal_strlit("\n ");
    reveal_strlit("boost");
    reveal_strlit("experience");
    reveal_strlit("¤(Boost)");
    reveal_strlit("¤(Xp)");
    reveal_strlit("¤(boost)");
    reveal_strlit("¤(xp)");
    assert(crate::text::witnessed(seq![' ', 'M', 'a', 'n', 'a', ' '], "\n "@, seq![0, 0, 0, 0, 0], 0)) by { reveal_with_fuel(crate::text::witnessed, 7); }
    crate::text::lemma_witnessed_none(seq![' ', 'M', 'a', 'n', 'a', ' '], "\n "@, seq![0, 0, 0, 0, 0], 0);
    crate::text::lemma_replace_none(seq![' ', 'M', 'a', 'n', 'a', ' '], "\n "@, " "@);
    assert(crate::text::witnessed(seq![' ', 'M', 'a', 'n', 'a', ' '], "  "@, seq![1, 0, 0, 0, 0], 0)) by { reveal_with_fuel(crate::text::witnessed, 7); }
    crate::text::lemma_witnessed_none(seq![' ', 'M', 'a', 'n', 'a', ' '], "  "@, seq![1, 0, 0, 0, 0], 0);
    crate::text::lemma_replace_none(seq![' ', 'M', 'a', 'n', 'a', ' '], "  "@, " "@);
    assert(crate::text::witnessed(seq![' ', 'M', 'a', 'n', 'a', ' '], "Boost"@, seq![0, 0], 0)) by { reveal_with_fuel(crate::text::witnessed, 4); }
    crate::text::lemma_witnessed_none(seq![' ', 'M', 'a', 'n', 'a', ' '], "Boost"@, seq![0, 0], 0);
    crate::text::lemma_replace_none(seq![' ', 'M', 'a', 'n', 'a', ' '], "Boost"@, "¤(Boost)"@);
    assert(crate::text::witnessed(seq![' ', 'M', 'a', 'n', 'a', ' '], "boost"@, seq![0, 0], 0)) by { reveal_with_fuel(crate::text::witnessed, 4); }
    crate::text::lemma_witnessed_none(seq![' ', 'M', 'a', 'n', 'a', ' '], "boost"@, seq![0, 0], 0);
    crate::text::lemma_replace_none(seq![' ', 'M', 'a', 'n', 'a', ' '], "boost"@, "¤(boost)"@);
    assert(crate::text::witnessed(seq![' ', 'M', 'a', 'n', 'a', ' '], "experience"@, seq![], 0)) by { reveal_with_fuel(crate::text::witnessed, 2); }
    crate::text::lemma_witnessed_none(seq![' ', 'M', 'a', 'n', 'a', ' '], "experience"@, seq![], 0);
    crate::text::lemma_replace_none(seq![' ', 'M', 'a', 'n', 'a', ' '], "experience"@, "¤(xp)"@);
    assert(crate::text::witnessed(seq![' ', 'M', 'a', 'n', 'a', ' '], "Experience"@, seq![], 0)) by { reveal_with_fuel(crate::text::witnessed, 2); }
    crate::text::lemma_witnessed_none(seq![' ', 'M', 'a', 'n', 'a', ' '], "Experience"@, seq![], 0);
    crate::text::lemma_replace_none(seq![' ', 'M', 'a', 'n', 'a', ' '], "Experience"@, "¤(Xp)"@);
    assert(crate::text::witnessed(seq![' ', 'M', 'a', 'n', 'a', ' '], " mana "@, seq![1], 0)) by { reveal_with_fuel(crate::text::witnessed, 3); }
    crate::text::lemma_witnessed_none(seq![' ', 'M', 'a', 'n', 'a', ' '], " mana "@, seq![1], 0);
    crate::text::lemma_replace_none(seq![' ', 'M', 'a', 'n', 'a', ' '], " mana "@, " ¤(mana) "@);
}

/// What group 1 makes of the middle of phrase 9.
proof fn lemma_phrase_9_group_1()
    ensures
        phrase_group_1(seq![' ', 'M', 'a', 'n', 'a', ' ']) == seq![' ', '\u{a4}', '(', 'M', 'a', 'n', 'a', ')', ' '],
{
    reveal(phrase_group_1);
    reveal_strlit(" Mana ");
    reveal_strlit(" Mana,");
    reveal_strlit(" Mana.");
    reveal_strlit(" mana,");
    reveal_strlit(" mana.");
    reveal_strlit(" ¤(Mana) ");
    reveal_strlit(" ¤(Mana),");
    reveal_strlit(" ¤(Mana).");
    reveal_strlit(" ¤(mana),");
    reveal_strlit(" ¤(mana).");
    reveal_strlit("I am");
    reveal_strlit("I'm");
    reveal_strlit("I’m");
    assert(crate::text::witnessed(seq![' ', 'M', 'a', 'n', 'a', ' '], " mana."@, seq![1], 0)) by { reveal_with_fuel(crate::text::witnessed, 3); }
    crate::text::lemma_witnessed_none(seq![' ', 'M', 'a', 'n', 'a', ' '], " mana."@, seq![1], 0);
    crate::text::lemma_replace_none(seq![' ', 'M', 'a', 'n', 'a', ' '], " mana."@, " ¤(mana)."@);
    assert(crate::text::witnessed(seq![' ', 'M', 'a', 'n', 'a', ' '], " mana,"@, seq![1], 0)) by { reveal_with_fuel(crate::text::witnessed, 3); }
    crate::text::lemma_witnessed_none(seq![' ', 'M', 'a', 'n', 'a', ' '], " mana,"@, seq![1], 0);
    crate::text::lemma_replace_none(seq![' ', 'M', 'a', 'n', 'a', ' '], " mana,"@, " ¤(mana),"@);
    assert(crate::text::witnessed_until(seq![' ', 'M', 'a', 'n', 'a', ' '], " Mana "@, seq![], 0, 0)) by { reveal_with_fuel(crate::text::witnessed_until, 2); }
    assert(crate::text::witnessed(seq![' ', 'M', 'a', 'n', 'a', ' '], " Mana "@, seq![0, 0, 0, 0, 0, 0], 6)) by { reveal_with_fuel(crate::text::witnessed, 8); }
    assert(seq![' ', 'M', 'a', 'n', 'a', ' '].subrange(0, 6) =~= " Mana "@);
    crate::text::lemma_replace_once(seq![' ', 'M', 'a', 'n', 'a', ' '], " Mana "@, " ¤(Mana) "@, 0, seq![], seq![0, 0, 0, 0, 0, 0]);
    assert(seq![' ', 'M', 'a', 'n', 'a', ' '].subrange(0, 0) + " ¤(Mana) "@ + seq![' ', 'M', 'a', 'n', 'a', ' '].subrange(6, 6) =~= seq![' ', '\u{a4}', '(', 'M', 'a', 'n', 'a', ')', ' ']);
    assert(crate::text::witnessed(seq![' ', '\u{a4}', '(', 'M', 'a', 'n', 'a', ')', ' '], " Mana."@, seq![1, 0, 0, 0], 0)) by { reveal_with_fuel(crate::text::witnessed, 6); }
    crate::text::lemma_witnessed_none(seq![' ', '\u{a4}', '(', 'M', 'a', 'n', 'a', ')', ' '], " Mana."@, seq![1, 0, 0, 0], 0);
    crate::text::lemma_replace_none(seq![' ', '\u{a4}', '(', 'M', 'a', 'n', 'a', ')', ' '], " Mana."@, " ¤(Mana)."@);
    assert(crate::text::witnessed(seq![' ', '\u{a4}', '(', 'M', 'a', 'n', 'a', ')', ' '], " Mana,"@, seq![1, 0, 0, 0], 0)) by { reveal_with_fuel(crate::text::witnessed, 6); }
    crate::text::lemma_witnessed_none(seq![' ', '\u{a4}', '(', 'M', 'a', 'n', 'a', ')', ' '], " Mana,"@, seq![1, 0, 0, 0], 0);
    crate::text::lemma_replace_none(seq![' ', '\u{a4}', '(', 'M', 'a', 'n', 'a', ')', ' '], " Mana,"@, " ¤(Mana),"@);
    assert(crate::text::witnessed(seq![' ', '\u{a4}', '(', 'M', 'a', 'n', 'a', ')', ' '], "I’m"@, seq![0, 0, 0, 0, 0, 0, 0], 0)) by { reveal_with_fuel(crate::text::witnessed, 9); }
    crate::text::lemma_witnessed_none(seq![' ', '\u{a4}', '(', 'M', 'a', 'n', 'a', ')', ' '], "I’m"@, seq![0, 0, 0, 0, 0, 0, 0], 0);
    crate::text::lemma_replace_none(seq![' ', '\u{a4}', '(', 'M', 'a', 'n', 'a', ')', ' '], "I’m"@, "I am"@);
    assert(crate::text::witnessed(seq![' ', '\u{a4}', '(', 'M', 'a', 'n', 'a', ')', ' '], "I'm"@, seq![0, 0, 0, 0, 0, 0, 0], 0)) by { reveal_with_fuel(crate::text::witnessed, 9); }
    crate::text::lemma_witnessed_none(seq![' ', '\u{a4}', '(', 'M', 'a', 'n', 'a', ')', ' '], "I'm"@, seq![0, 0, 0, 0, 0, 0, 0], 0);
    crate::text::lemma_replace_none(seq![' ', '\u{a4}', '(', 'M', 'a', 'n', 'a', ')', ' '], "I'm"@, "I am"@);
}

/// What group 2 makes of the middle of phrase 9.
proof fn lemma_phrase_9_group_2()
    ensures
        phrase_group_2(seq![' ', '\u{a4}', '(', 'M', 'a', 'n', 'a', ')', ' ']) == seq![' ', '\u{a4}', '(', 'M', 'a', 'n', 'a', ')', ' '],
{
    reveal(phrase_group_2);
    reveal_strlit(" I am ");
    reveal_strlit(" I have");
    reveal_strlit(" me ");
    reveal_strlit(" my ");
    reveal_strlit(" ¤(I have)");
    reveal_strlit(" ¤(i am) ");
    reveal_strlit(" ¤(i have)");
    reveal_strlit(" ¤(me) ");
    reveal_strlit(" ¤(my) ");
    reveal_strlit(". I am ");
    reveal_strlit(". I have");
    reveal_strlit(". My ");
    reveal_strlit(". ¤(I am) ");
    reveal_strlit(". ¤(My) ");
    assert(crate::text::witnessed(seq![' ', '\u{a4}', '(', 'M', 'a', 'n', 'a', ')', ' '], ". I am "@, seq![0, 0, 0], 0)) by { reveal_with_fuel(crate::text::witnessed, 5); }
    crate::text::lemma_witnessed_none(seq![' ', '\u{a4}', '(', 'M', 'a', 'n', 'a', ')', ' '], ". I am "@, seq![0, 0, 0], 0);
    crate::text::lemma_replace_none(seq![' ', '\u{a4}', '(', 'M', 'a', 'n', 'a', ')', ' '], ". I am "@, ". ¤(I am) "@);
    assert(crate::text::witnessed(seq![' ', '\u{a4}', '(', 'M', 'a', 'n', 'a', ')', ' '], " I am "@, seq![1, 0, 0, 0], 0)) by { reveal_with_fuel(crate::text::witnessed, 6); }
    crate::text::lemma_witnessed_none(seq![' ', '\u{a4}', '(', 'M', 'a', 'n', 'a', ')', ' '], " I am "@, seq![1, 0, 0, 0], 0);
    crate::text::lemma_replace_none(seq![' ', '\u{a4}', '(', 'M', 'a', 'n', 'a', ')', ' '], " I am "@, " ¤(i am) "@);
    assert(crate::text::witnessed(seq![' ', '\u{a4}', '(', 'M', 'a', 'n', 'a', ')', ' '], " I have"@, seq![1, 0, 0], 0)) by { reveal_with_fuel(crate::text::witnessed, 5); }
    crate::text::lemma_witnessed_none(seq![' ', '\u{a4}', '(', 'M', 'a', 'n', 'a', ')', ' '], " I have"@, seq![1, 0, 0], 0);
    crate::text::lemma_replace_none(seq![' ', '\u{a4}', '(', 'M', 'a', 'n', 'a', ')', ' '], " I have"@, " ¤(i have)"@);
    assert(crate::text::witnessed(seq![' ', '\u{a4}', '(', 'M', 'a', 'n', 'a', ')', ' '], ". I have"@, seq![0, 0], 0)) by { reveal_with_fuel(crate::text::witnessed, 4); }
    crate::text::lemma_witnessed_none(seq![' ', '\u{a4}', '(', 'M', 'a', 'n', 'a', ')', ' '], ". I have"@, seq![0, 0], 0);
    crate::text::lemma_replace_none(seq![' ', '\u{a4}', '(', 'M', 'a', 'n', 'a', ')', ' '], ". I have"@, " ¤(I have)"@);
    assert(crate::text::witnessed(seq![' ', '\u{a4}', '(', 'M', 'a', 'n', 'a', ')', ' '], " my "@, seq![1, 0, 0, 0, 0, 0], 0)) by { reveal_with_fuel(crate::text::witnessed, 8); }
    crate::text::lemma_witnessed_none(seq![' ', '\u{a4}', '(', 'M', 'a', 'n', 'a', ')', ' '], " my "@, seq![1, 0, 0, 0, 0, 0], 0);
    crate::text::lemma_replace_none(seq![' ', '\u{a4}', '(', 'M', 'a', 'n', 'a', ')', ' '], " my "@, " ¤(my) "@);
    assert(crate::text::witnessed(seq![' ', '\u{a4}', '(', 'M', 'a', 'n', 'a', ')', ' '], ". My "@, seq![0, 0, 0, 0, 0], 0)) by { reveal_with_fuel(crate::text::witnessed, 7); }
    crate::text::lemma_witnessed_none(seq![' ', '\u{a4}', '(', 'M', 'a', 'n', 'a', ')', ' '], ". My "@, seq![0, 0, 0, 0, 0], 0);
    crate::text::lemma_replace_none(seq![' ', '\u{a4}', '(', 'M', 'a', 'n', 'a', ')', ' '], ". My "@, ". ¤(My) "@);
    assert(crate::text::witnessed(seq![' ', '\u{a4}', '(', 'M', 'a', 'n', 'a', ')', ' '], " me "@, seq![1, 0, 0, 0, 0, 0], 0)) by { reveal_with_fuel(crate::text::witnessed, 8); }
    crate::text::lemma_witnessed_none(seq![' ', '\u{a4}', '(', 'M', 'a', 'n', 'a', ')', ' '], " me "@, seq![1, 0, 0, 0, 0, 0], 0);
    crate::text::lemma_replace_none(seq![' ', '\u{a4}', '(', 'M', 'a', 'n', 'a', ')', ' '], " me "@, " ¤(me) "@);
}

/// What group 3 makes of the middle of phrase 9.
proof fn lemma_phrase_9_group_3()
    ensures
        phrase_group_3(seq![' ', '\u{a4}', '(', 'M', 'a', 'n', 'a', ')', ' ']) == seq![' ', '\u{a4}', '(', 'M', 'a', 'n', 'a', ')', ' '],
{
    reveal(phrase_group_3);
    reveal_strlit(" Me ");
    reveal_strlit(" Me,");
    reveal_strlit(" Me.");
    reveal_strlit(" me,");
    reveal_strlit(" me.");
    reveal_strlit(" ¤(Me) ");
    reveal_strlit(" ¤(Me),");
    reveal_strlit(" ¤(Me).");
    reveal_strlit(" ¤(me),");
    reveal_strlit(" ¤(me).");
    reveal_strlit(". I ");
    reveal_strlit(". ¤(I) ");
    reveal_strlit("\nI ");
    reveal_strlit("\n¤(I) ");
    assert(crate::text::witnessed(seq![' ', '\u{a4}', '(', 'M', 'a', 'n', 'a', ')', ' '], " me,"@, seq![1, 0, 0, 0, 0, 0], 0)) by { reveal_with_fuel(crate::text::witnessed, 8); }
    crate::text::lemma_witnessed_none(seq![' ', '\u{a4}', '(', 'M', 'a', 'n', 'a', ')', ' '], " me,"@, seq![1, 0, 0, 0, 0, 0], 0);
    crate::text::lemma_replace_none(seq![' ', '\u{a4}', '(', 'M', 'a', 'n', 'a', ')', ' '], " me,"@, " ¤(me),"@);
    assert(crate::text::witnessed(seq![' ', '\u{a4}', '(', 'M', 'a', 'n', 'a', ')', ' '], " me."@, seq![1, 0, 0, 0, 0, 0], 0)) by { reveal_with_fuel(crate::text::witnessed, 8); }
    crate::text::lemma_witnessed_none(seq![' ', '\u{a4}', '(', 'M', 'a', 'n', 'a', ')', ' '], " me."@, seq![1, 0, 0, 0, 0, 0], 0);
    crate::text::lemma_replace_none(seq![' ', '\u{a4}', '(', 'M', 'a', 'n', 'a', ')', ' '], " me."@, " ¤(me)."@);
    assert(crate::text::witnessed(seq![' ', '\u{a4}', '(', 'M', 'a', 'n', 'a', ')', ' '], " Me "@, seq![1, 0, 0, 0, 0, 0], 0)) by { reveal_with_fuel(crate::text::witnessed, 8); }
    crate::text::lemma_witnessed_none(seq![' ', '\u{a4}', '(', 'M', 'a', 'n', 'a', ')', ' '], " Me "@, seq![1, 0, 0, 0, 0, 0], 0);
    crate::text::lemma_replace_none(seq![' ', '\u{a4}', '(', 'M', 'a', 'n', 'a', ')', ' '], " Me "@, " ¤(Me) "@);
    assert(crate::text::witnessed(seq![' ', '\u{a4}', '(', 'M', 'a', 'n', 'a', ')', ' '], " Me,"@, seq![1, 0, 0, 0, 0, 0], 0)) by { reveal_with_fuel(crate::text::witnessed, 8); }
    crate::text::lemma_witnessed_none(seq![' ', '\u{a4}', '(', 'M', 'a', 'n', 'a', ')', ' '], " Me,"@, seq![1, 0, 0, 0, 0, 0], 0);
    crate::text::lemma_replace_none(seq![' ', '\u{a4}', '(', 'M', 'a', 'n', 'a', ')', ' '], " Me,"@, " ¤(Me),"@);
    assert(crate::text::witnessed(seq![' ', '\u{a4}', '(', 'M', 'a', 'n', 'a', ')', ' '], " Me."@, seq![1, 0, 0, 0, 0, 0], 0)) by { reveal_with_fuel(crate::text::witnessed, 8); }
    crate::text::lemma_witnessed_none(seq![' ', '\u{a4}', '(', 'M', 'a', 'n', 'a', ')', ' '], " Me."@, seq![1, 0, 0, 0, 0, 0], 0);
    crate::text::lemma_replace_none(seq![' ', '\u{a4}', '(', 'M', 'a', 'n', 'a', ')', ' '], " Me."@, " ¤(Me)."@);
    assert(crate::text::witnessed(seq![' ', '\u{a4}', '(', 'M', 'a', 'n', 'a', ')', ' '], "\nI "@, seq![0, 0, 0, 0, 0, 0, 0], 0)) by { reveal_with_fuel(crate::text::witnessed, 9); }
    crate::text::lemma_witnessed_none(seq![' ', '\u{a4}', '(', 'M', 'a', 'n', 'a', ')', ' '], "\nI "@, seq![0, 0, 0, 0, 0, 0, 0], 0);
    crate::text::lemma_replace_none(seq![' ', '\u{a4}', '(', 'M', 'a', 'n', 'a', ')', ' '], "\nI "@, "\n¤(I) "@);
    assert(crate::text::witnessed(seq![' ', '\u{a4}', '(', 'M', 'a', 'n', 'a', ')', ' '], ". I "@, seq![0, 0, 0, 0, 0, 0], 0)) by { reveal_with_fuel(crate::text::witnessed, 8); }
    crate::text::lemma_witnessed_none(seq![' ', '\u{a4}', '(', 'M', 'a', 'n', 'a', ')', ' '], ". I "@, seq![0, 0, 0, 0, 0, 0], 0);
    crate::text::lemma_replace_none(seq![' ', '\u{a4}', '(', 'M', 'a', 'n', 'a', ')', ' '], ". I "@, ". ¤(I) "@);
}

/// What group 4 makes of the middle of phrase 9.
proof fn lemma_phrase_9_group_4()
    ensures
        phrase_group_4(seq![' ', '\u{a4}', '(', 'M', 'a', 'n', 'a', ')', ' ']) == seq![' ', '\u{a4}', '(', 'M', 'a', 'n', 'a', ')', ' '],
{
    reveal(phrase_group_4);
    reveal_strlit(" I ");
    reveal_strlit(" I,");
    reveal_strlit(" I.");
    reveal_strlit(" ¤(i) ");
    reveal_strlit(" ¤(i),");
    reveal_strlit(" ¤(i).");
    reveal_strlit(". I,");
    reveal_strlit(". I.");
    reveal_strlit(". ¤(I),");
    reveal_strlit(". ¤(I). ");
    reveal_strlit("Cards ¤(I am) attached to");
    reveal_strlit("The card ¤(I am) attached to");
    reveal_strlit("cards ¤(I am) attached to");
    reveal_strlit("the card ¤(I am) attached to");
    assert(crate::text::witnessed(seq![' ', '\u{a4}', '(', 'M', 'a', 'n', 'a', ')', ' '], ". I,"@, seq![0, 0, 0, 0, 0, 0], 0)) by { reveal_with_fuel(crate::text::witnessed, 8); }
    crate::text::lemma_witnessed_none(seq![' ', '\u{a4}', '(', 'M', 'a', 'n', 'a', ')', ' '], ". I,"@, seq![0, 0, 0, 0, 0, 0], 0);
    crate::text::lemma_replace_none(seq![' ', '\u{a4}', '(', 'M', 'a', 'n', 'a', ')', ' '], ". I,"@, ". ¤(I),"@);
    assert(crate::text::witnessed(seq![' ', '\u{a4}', '(', 'M', 'a', 'n', 'a', ')', ' '], ". I."@, seq![0, 0, 0, 0, 0, 0], 0)) by { reveal_with_fuel(crate::text::witnessed, 8); }
    crate::text::lemma_witnessed_none(seq![' ', '\u{a4}', '(', 'M', 'a', 'n', 'a', ')', ' '], ". I."@, seq![0, 0, 0, 0, 0, 0], 0);
    crate::text::lemma_replace_none(seq![' ', '\u{a4}', '(', 'M', 'a', 'n', 'a', ')', ' '], ". I."@, ". ¤(I). "@);
    assert(crate::text::witnessed(seq![' ', '\u{a4}', '(', 'M', 'a', 'n', 'a', ')', ' '], " I "@, seq![1, 0, 0, 0, 0, 0, 0], 0)) by { reveal_with_fuel(crate::text::witnessed, 9); }
    crate::text::lemma_witnessed_none(seq![' ', '\u{a4}', '(', 'M', 'a', 'n', 'a', ')', ' '], " I "@, seq![1, 0, 0, 0, 0, 0, 0], 0);
    crate::text::lemma_replace_none(seq![' ', '\u{a4}', '(', 'M', 'a', 'n', 'a', ')', ' '], " I "@, " ¤(i) "@);
    assert(crate::text::witnessed(seq![' ', '\u{a4}', '(', 'M', 'a', 'n', 'a', ')', ' '], " I,"@, seq![1, 0, 0, 0, 0, 0, 0], 0)) by { reveal_with_fuel(crate::text::witnessed, 9); }
    crate::text::lemma_witnessed_none(seq![' ', '\u{a4}', '(', 'M', 'a', 'n', 'a', ')', ' '], " I,"@, seq![1, 0, 0, 0, 0, 0, 0], 0);
    crate::text::lemma_replace_none(seq![' ', '\u{a4}', '(', 'M', 'a', 'n', 'a', ')', ' '], " I,"@, " ¤(i),"@);
    assert(crate::text::witnessed(seq![' ', '\u{a4}', '(', 'M', 'a', 'n', 'a', ')', ' '], " I."@, seq![1, 0, 0, 0, 0, 0, 0], 0)) by { reveal_with_fuel(crate::text::witnessed, 9); }
    crate::text::lemma_witnessed_none(seq![' ', '\u{a4}', '(', 'M', 'a', 'n', 'a', ')', ' '], " I."@, seq![1, 0, 0, 0, 0, 0, 0], 0);
    crate::text::lemma_replace_none(seq![' ', '\u{a4}', '(', 'M', 'a', 'n', 'a', ')', ' '], " I."@, " ¤(i)."@);
    assert(crate::text::witnessed(seq![' ', '\u{a4}', '(', 'M', 'a', 'n', 'a', ')', ' '], "Cards ¤(I am) attached to"@, seq![], 0)) by { reveal_with_fuel(crate::text::witnessed, 2); }
    crate::text::lemma_witnessed_none(seq![' ', '\u{a4}', '(', 'M', 'a', 'n', 'a', ')', ' '], "Cards ¤(I am) attached to"@, seq![], 0);
    crate::text::lemma_replace_none(seq![' ', '\u{a4}', '(', 'M', 'a', 'n', 'a', ')', ' '], "Cards ¤(I am) attached to"@, "The card ¤(I am) attached to"@);
    assert(crate::text::witnessed(seq![' ', '\u{a4}', '(', 'M', 'a', 'n', 'a', ')', ' '], "cards ¤(I am) attached to"@, seq![], 0)) by { reveal_with_fuel(crate::text::witnessed, 2); }
    crate::text::lemma_witnessed_none(seq![' ', '\u{a4}', '(', 'M', 'a', 'n', 'a', ')', ' '], "cards ¤(I am) attached to"@, seq![], 0);
    crate::text::lemma_replace_none(seq![' ', '\u{a4}', '(', 'M', 'a', 'n', 'a', ')', ' '], "cards ¤(I am) attached to"@, "the card ¤(I am) attached to"@);
}

/// Between digits, phrase 9 becomes what the card text makes of it.
proof fn lemma_phrase_9(x: Seq<char>, y: Seq<char>)
    requires
        all_digits(x),
        all_digits(y),
        trim(x + " Mana "@ + y) == x + " Mana "@ + y,
    ensures
        phrase_commands(x + " Mana "@ + y) == Some(x + seq![' ', '\u{a4}', '(', 'M', 'a', 'n', 'a', ')', ' '] + y),
{
    reveal_strlit(" Mana ");
    assert(" Mana "@ =~= seq![' ', 'M', 'a', 'n', 'a', ' ']);
    reveal_strlit("Card with");
    reveal_strlit("card with");
    reveal_strlit("Cards with");
    reveal_strlit("cards with");
    let m0 = seq![' ', 'M', 'a', 'n', 'a', ' '];
    lemma_group_framed_0(x, m0, y);
    lemma_phrase_9_group_0();
    let m1 = phrase_group_0(m0);
    lemma_group_framed_1(x, m1, y);
    lemma_phrase_9_group_1();
    let m2 = phrase_group_1(m1);
    lemma_group_framed_2(x, m2, y);
    lemma_phrase_9_group_2();
    let m3 = phrase_group_2(m2);
    lemma_group_framed_3(x, m3, y);
    lemma_phrase_9_group_3();
    let m4 = phrase_group_3(m3);
    lemma_group_framed_4(x, m4, y);
    lemma_phrase_9_group_4();
    let m5 = phrase_group_4(m4);
    assert(crate::text::witnessed(seq![' ', '\u{a4}', '(', 'M', 'a', 'n', 'a', ')', ' '], "Card with"@, seq![0], 0)) by { reveal_with_fuel(crate::text::witnessed, 3); }
    crate::text::lemma_witnessed_none(seq![' ', '\u{a4}', '(', 'M', 'a', 'n', 'a', ')', ' '], "Card with"@, seq![0], 0);
    assert(digit_free("Card with"@));
    crate::text::lemma_replace_framed(x, seq![' ', '\u{a4}', '(', 'M', 'a', 'n', 'a', ')', ' '], y, "Card with"@, "Card with"@);
    assert(with_marker(WithPhrase::Card) == "Card with"@);
    assert(crate::text::witnessed(seq![' ', '\u{a4}', '(', 'M', 'a', 'n', 'a', ')', ' '], "card with"@, seq![0], 0)) by { reveal_with_fuel(crate::text::witnessed, 3); }
    crate::text::lemma_witnessed_none(seq![' ', '\u{a4}', '(', 'M', 'a', 'n', 'a', ')', ' '], "card with"@, seq![0], 0);
    assert(digit_free("card with"@));
    crate::text::lemma_replace_framed(x, seq![' ', '\u{a4}', '(', 'M', 'a', 'n', 'a', ')', ' '], y, "card with"@, "card with"@);
    assert(with_marker(WithPhrase::CardLower) == "card with"@);
    assert(crate::text::witnessed(seq![' ', '\u{a4}', '(', 'M', 'a', 'n', 'a', ')', ' '], "Cards with"@, seq![], 0)) by { reveal_with_fuel(crate::text::witnessed, 2); }
    crate::text::lemma_witnessed_none(seq![' ', '\u{a4}', '(', 'M', 'a', 'n', 'a', ')', ' '], "Cards with"@, seq![], 0);
    assert(digit_free("Cards with"@));
    crate::text::lemma_replace_framed(x, seq![' ', '\u{a4}', '(', 'M', 'a', 'n', 'a', ')', ' '], y, "Cards with"@, "Cards with"@);
    assert(with_marker(WithPhrase::Cards) == "Cards with"@);
    assert(crate::text::witnessed(seq![' ', '\u{a4}', '(', 'M', 'a', 'n', 'a', ')', ' '], "cards with"@, seq![], 0)) by { reveal_with_fuel(crate::text::witnessed, 2); }
    crate::text::lemma_witnessed_none(seq![' ', '\u{a4}', '(', 'M', 'a', 'n', 'a', ')', ' '], "cards with"@, seq![], 0);
    assert(digit_free("cards with"@));
    crate::text::lemma_replace_framed(x, seq![' ', '\u{a4}', '(', 'M', 'a', 'n', 'a', ')', ' '], y, "cards with"@, "cards with"@);
    assert(with_marker(WithPhrase::CardsLower) == "cards with"@);
}

/// What group 0 makes of the middle of phrase 10.
proof fn lemma_phrase_10_group_0()
    ensures
        phrase_group_0(seq![' ', 'M', 'a', 'n', 'a', '.']) == seq![' ', 'M', 'a', 'n', 'a', '.'],
{
    reveal(phrase_group_0);
    reveal_strlit(" ");
    reveal_strlit("  ");
    reveal_strlit(" mana ");
    reveal_strlit(" ¤(mana) ");
    reveal_strlit("Boost");
    reveal_strlit("Experience");
    reveal_strlit("\n ");
    reveal_strlit("boost");
    reveal_strlit("experience");
    reveal_strlit("¤(Boost)");
    reveal_strlit("¤(Xp)");
    reveal_strlit("¤(boost)");
    reveal_strlit("¤(xp)");
    assert(crate::text::witnessed(seq![' ', 'M', 'a', 'n', 'a', '.'], "\n "@, seq![0, 0, 0, 0, 0], 0)) by { reveal_with_fuel(crate::text::witnessed, 7); }
    crate::text::lemma_witnessed_none(seq![' ', 'M', 'a', 'n', 'a', '.'], "\n "@, seq![0, 0, 0, 0, 0], 0);
    crate::text::lemma_replace_none(seq![' ', 'M', 'a', 'n', 'a', '.'], "\n "@, " "@);
    assert(crate::text::witnessed(seq![' ', 'M', 'a', 'n', 'a', '.'], "  "@, seq![1, 0, 0, 0, 0], 0)) by { reveal_with_fuel(crate::text::witnessed, 7); }
    crate::text::lemma_witnessed_none(seq![' ', 'M', 'a', 'n', 'a', '.'], "  "@, seq![1, 0, 0, 0, 0], 0);
    crate::text::lemma_replace_none(seq![' ', 'M', 'a', 'n', 'a', '.'], "  "@, " "@);
    assert(crate::text::witnessed(seq![' ', 'M', 'a', 'n', 'a', '.'], "Boost"@, seq![0, 0], 0)) by { reveal_with_fuel(crate::text::witnessed, 4); }
    crate::text::lemma_witnessed_none(seq![' ', 'M', 'a', 'n', 'a', '.'], "Boost"@, seq![0, 0], 0);
    crate::text::lemma_replace_none(seq![' ', 'M', 'a', 'n', 'a', '.'], "Boost"@, "¤(Boost)"@);
    assert(crate::text::witnessed(seq![' ', 'M', 'a', 'n', 'a', '.'], "boost"@, seq![0, 0], 0)) by { reveal_with_fuel(crate::text::witnessed, 4); }
    crate::text::lemma_witnessed_none(seq![' ', 'M', 'a', 'n', 'a', '.'], "boost"@, seq![0, 0], 0);
    crate::text::lemma_replace_none(seq![' ', 'M', 'a', 'n', 'a', '.'], "boost"@, "¤(boost)"@);
    assert(crate::text::witnessed(seq![' ', 'M', 'a', 'n', 'a', '.'], "experience"@, seq![], 0)) by { reveal_with_fuel(crate::text::witnessed, 2); }
    crate::text::lemma_witnessed_none(seq![' ', 'M', 'a', 'n', 'a', '.'], "experience"@, seq![], 0);
    crate::text::lemma_replace_none(seq![' ', 'M', 'a', 'n', 'a', '.'], "experience"@, "¤(xp)"@);
    assert(crate::text::witnessed(seq![' ', 'M', 'a', 'n', 'a', '.'], "Experience"@, seq![], 0)) by { reveal_with_fuel(crate::text::witnessed, 2); }
    crate::text::lemma_witnessed_none(seq![' ', 'M', 'a', 'n', 'a', '.'], "Experience"@, seq![], 0);
    crate::text::lemma_replace_none(seq![' ', 'M', 'a', 'n', 'a', '.'], "Experience"@, "¤(Xp)"@);
    assert(crate::text::witnessed(seq![' ', 'M', 'a', 'n', 'a', '.'], " mana "@, seq![1], 0)) by { reveal_with_fuel(crate::text::witnessed, 3); }
    crate::text::lemma_witnessed_none(seq![' ', 'M', 'a', 'n', 'a', '.'], " mana "@, seq![1], 0);
    crate::text::lemma_replace_none(seq![' ', 'M', 'a', 'n', 'a', '.'], " mana "@, " ¤(mana) "@);
}

/// What group 1 makes of the middle of phrase 10.
proof fn lemma_phrase_10_group_1()
    ensures
        phrase_group_1(seq![' ', 'M', 'a', 'n', 'a', '.']) == seq![' ', '\u{a4}', '(', 'M', 'a', 'n', 'a', ')', '.'],
{
    reveal(phrase_group_1);
    reveal_strlit(" Mana ");
    reveal_strlit(" Mana,");
    reveal_strlit(" Mana.");
    reveal_strlit(" mana,");
    reveal_strlit(" mana.");
    reveal_strlit(" ¤(Mana) ");
    reveal_strlit(" ¤(Mana),");
    reveal_strlit(" ¤(Mana).");
    reveal_strlit(" ¤(mana),");
    reveal_strlit(" ¤(mana).");
    reveal_strlit("I am");
    reveal_strlit("I'm");
    reveal_strlit("I’m");
    assert(crate::text::witnessed(seq![' ', 'M', 'a', 'n', 'a', '.'], " mana."@, seq![1], 0)) by { reveal_with_fuel(crate::text::witnessed, 3); }
    crate::text::lemma_witnessed_none(seq![' ', 'M', 'a', 'n', 'a', '.'], " mana."@, seq![1], 0);
    crate::text::lemma_replace_none(seq![' ', 'M', 'a', 'n', 'a', '.'], " mana."@, " ¤(mana)."@);
    assert(crate::text::witnessed(seq![' ', 'M', 'a', 'n', 'a', '.'], " mana,"@, seq![1], 0)) by { reveal_with_fuel(crate::text::witnessed, 3); }
    crate::text::lemma_witnessed_none(seq![' ', 'M', 'a', 'n', 'a', '.'], " mana,"@, seq![1], 0);
    crate::text::lemma_replace_none(seq![' ', 'M', 'a', 'n', 'a', '.'], " mana,"@, " ¤(mana),"@);
    assert(crate::text::witnessed(seq![' ', 'M', 'a', 'n', 'a', '.'], " Mana "@, seq![5], 0)) by { reveal_with_fuel(crate::text::witnessed, 3); }
    crate::text::lemma_witnessed_none(seq![' ', 'M', 'a', 'n', 'a', '.'], " Mana "@, seq![5], 0);
    crate::text::lemma_replace_none(seq![' ', 'M', 'a', 'n', 'a', '.'], " Mana "@, " ¤(Mana) "@);
    assert(crate::text::witnessed_until(seq![' ', 'M', 'a', 'n', 'a', '.'], " Mana."@, seq![], 0, 0)) by { reveal_with_fuel(crate::text::witnessed_until, 2); }
    assert(crate::text::witnessed(seq![' ', 'M', 'a', 'n', 'a', '.'], " Mana."@, seq![0, 0, 0, 0, 0, 0], 6)) by { reveal_with_fuel(crate::text::witnessed, 8); }
    assert(seq![' ', 'M', 'a', 'n', 'a', '.'].subrange(0, 6) =~= " Mana."@);
    crate::text::lemma_replace_once(seq![' ', 'M', 'a', 'n', 'a', '.'], " Mana."@, " ¤(Mana)."@, 0, seq![], seq![0, 0, 0, 0, 0, 0]);
    assert(seq![' ', 'M', 'a', 'n', 'a', '.'].subrange(0, 0) + " ¤(Mana)."@ + seq![' ', 'M', 'a', 'n', 'a', '.'].subrange(6, 6) =~= seq![' ', '\u{a4}', '(', 'M', 'a', 'n', 'a', ')', '.']);
    assert(crate::text::witnessed(seq![' ', '\u{a4}', '(', 'M', 'a', 'n', 'a', ')', '.'], " Mana,"@, seq![1, 0, 0, 0], 0)) by { reveal_with_fuel(crate::text::witnessed, 6); }
    crate::text::lemma_witnessed_none(seq![' ', '\u{a4}', '(', 'M', 'a', 'n', 'a', ')', '.'], " Mana,"@, seq![1, 0, 0, 0], 0);
    crate::text::lemma_replace_none(seq![' ', '\u{a4}', '(', 'M', 'a', 'n', 'a', ')', '.'], " Mana,"@, " ¤(Mana),"@);
    assert(crate::text::witnessed(seq![' ', '\u{a4}', '(', 'M', 'a', 'n', 'a', ')', '.'], "I’m"@, seq![0, 0, 0, 0, 0, 0, 0], 0)) by { reveal_with_fuel(crate::text::witnessed, 9); }
    crate::text::lemma_witnessed_none(seq![' ', '\u{a4}', '(', 'M', 'a', 'n', 'a', ')', '.'], "I’m"@, seq![0, 0, 0, 0, 0, 0, 0], 0);
    crate::text::lemma_replace_none(seq![' ', '\u{a4}', '(', 'M', 'a', 'n', 'a', ')', '.'], "I’m"@, "I am"@);
    assert(crate::text::witnessed(seq![' ', '\u{a4}', '(', 'M', 'a', 'n', 'a', ')', '.'], "I'm"@, seq![0, 0, 0, 0, 0, 0, 0], 0)) by { reveal_with_fuel(crate::text::witnessed, 9); }
    crate::text::lemma_witnessed_none(seq![' ', '\u{a4}', '(', 'M', 'a', 'n', 'a', ')', '.'], "I'm"@, seq![0, 0, 0, 0, 0, 0, 0], 0);
    crate::text::lemma_replace_none(seq![' ', '\u{a4}', '(', 'M', 'a', 'n', 'a', ')', '.'], "I'm"@, "I am"@);
}

/// What group 2 makes of the middle of phrase 10.
proof fn lemma_phrase_10_group_2()
    ensures
        phrase_group_2(seq![' ', '\u{a4}', '(', 'M', 'a', 'n', 'a', ')', '.']) == seq![' ', '\u{a4}', '(', 'M', 'a', 'n', 'a', ')', '.'],
{
    reveal(phrase_group_2);
    reveal_strlit(" I am ");
    reveal_strlit(" I have");
    reveal_strlit(" me ");
    reveal_strlit(" my ");
    reveal_strlit(" ¤(I have)");
    reveal_strlit(" ¤(i am) ");
    reveal_strlit(" ¤(i have)");
    reveal_strlit(" ¤(me) ");
    reveal_strlit(" ¤(my) ");
    reveal_strlit(". I am ");
    reveal_strlit(". I have");
    reveal_strlit(". My ");
    reveal_strlit(". ¤(I am) ");
    reveal_strlit(". ¤(My) ");
    assert(crate::text::witnessed(seq![' ', '\u{a4}', '(', 'M', 'a', 'n', 'a', ')', '.'], ". I am "@, seq![0, 0, 0], 0)) by { reveal_with_fuel(crate::text::witnessed, 5); }
    crate::text::lemma_witnessed_none(seq![' ', '\u{a4}', '(', 'M', 'a', 'n', 'a', ')', '.'], ". I am "@, seq![0, 0, 0], 0);
    crate::text::lemma_replace_none(seq![' ', '\u{a4}', '(', 'M', 'a', 'n', 'a', ')', '.'], ". I am "@, ". ¤(I am) "@);
    assert(crate::text::witnessed(seq![' ', '\u{a4}', '(', 'M', 'a', 'n', 'a', ')', '.'], " I am "@, seq![1, 0, 0, 0], 0)) by { reveal_with_fuel(crate::text::witnessed, 6); }
    crate::text::lemma_witnessed_none(seq![' ', '\u{a4}', '(', 'M', 'a', 'n', 'a', ')', '.'], " I am "@, seq![1, 0, 0, 0], 0);
    crate::text::lemma_replace_none(seq![' ', '\u{a4}', '(', 'M', 'a', 'n', 'a', ')', '.'], " I am "@, " ¤(i am) "@);
    assert(crate::text::witnessed(seq![' ', '\u{a4}', '(', 'M', 'a', 'n', 'a', ')', '.'], " I have"@, seq![1, 0, 0], 0)) by { reveal_with_fuel(crate::text::witnessed, 5); }
    crate::text::lemma_witnessed_none(seq![' ', '\u{a4}', '(', 'M', 'a', 'n', 'a', ')', '.'], " I have"@, seq![1, 0, 0], 0);
    crate::text::lemma_replace_none(seq![' ', '\u{a4}', '(', 'M', 'a', 'n', 'a', ')', '.'], " I have"@, " ¤(i have)"@);
    assert(crate::text::witnessed(seq![' ', '\u{a4}', '(', 'M', 'a', 'n', 'a', ')', '.'], ". I have"@, seq![0, 0], 0)) by { reveal_with_fuel(crate::text::witnessed, 4); }
    crate::text::lemma_witnessed_none(seq![' ', '\u{a4}', '(', 'M', 'a', 'n', 'a', ')', '.'], ". I have"@, seq![0, 0], 0);
    crate::text::lemma_replace_none(seq![' ', '\u{a4}', '(', 'M', 'a', 'n', 'a', ')', '.'], ". I have"@, " ¤(I have)"@);
    assert(crate::text::witnessed(seq![' ', '\u{a4}', '(', 'M', 'a', 'n', 'a', ')', '.'], " my "@, seq![1, 0, 0, 0, 0, 0], 0)) by { reveal_with_fuel(crate::text::witnessed, 8); }
    crate::text::lemma_witnessed_none(seq![' ', '\u{a4}', '(', 'M', 'a', 'n', 'a', ')', '.'], " my "@, seq![1, 0, 0, 0, 0, 0], 0);
    crate::text::lemma_replace_none(seq![' ', '\u{a4}', '(', 'M', 'a', 'n', 'a', ')', '.'], " my "@, " ¤(my) "@);
    assert(crate::text::witnessed(seq![' ', '\u{a4}', '(', 'M', 'a', 'n', 'a', ')', '.'], ". My "@, seq![0, 0, 0, 0, 0], 0)) by { reveal_with_fuel(crate::text::witnessed, 7); }
    crate::text::lemma_witnessed_none(seq![' ', '\u{a4}', '(', 'M', 'a', 'n', 'a', ')', '.'], ". My "@, seq![0, 0, 0, 0, 0], 0);
    crate::text::lemma_replace_none(seq![' ', '\u{a4}', '(', 'M', 'a', 'n', 'a', ')', '.'], ". My "@, ". ¤(My) "@);
    assert(crate::text::witnessed(seq![' ', '\u{a4}', '(', 'M', 'a', 'n', 'a', ')', '.'], " me "@, seq![1, 0, 0, 0, 0, 0], 0)) by { reveal_with_fuel(crate::text::witnessed, 8); }
    crate::text::lemma_witnessed_none(seq![' ', '\u{a4}', '(', 'M', 'a', 'n', 'a', ')', '.'], " me "@, seq![1, 0, 0, 0, 0, 0], 0);
    crate::text::lemma_replace_none(seq![' ', '\u{a4}', '(', 'M', 'a', 'n', 'a', ')', '.'], " me "@, " ¤(me) "@);
}

/// What group 3 makes of the middle of phrase 10.
proof fn lemma_phrase_10_group_3()
    ensures
        phrase_group_3(seq![' ', '\u{a4}', '(', 'M', 'a', 'n', 'a', ')', '.']) == seq![' ', '\u{a4}', '(', 'M', 'a', 'n', 'a', ')', '.'],
{
    reveal(phrase_group_3);
    reveal_strlit(" Me ");
    reveal_strlit(" Me,");
    reveal_strlit(" Me.");
    reveal_strlit(" me,");
    reveal_strlit(" me.");
    reveal_strlit(" ¤(Me) ");
    reveal_strlit(" ¤(Me),");
    reveal_strlit(" ¤(Me).");
    reveal_strlit(" ¤(me),");
    reveal_strlit(" ¤(me).");
    reveal_strlit(". I ");
    reveal_strlit(". ¤(I) ");
    reveal_strlit("\nI ");
    reveal_strlit("\n¤(I) ");
    assert(crate::text::witnessed(seq![' ', '\u{a4}', '(', 'M', 'a', 'n', 'a', ')', '.'], " me,"@, seq![1, 0, 0, 0, 0, 0], 0)) by { reveal_with_fuel(crate::text::witnessed, 8); }
    crate::text::lemma_witnessed_none(seq![' ', '\u{a4}', '(', 'M', 'a', 'n', 'a', ')', '.'], " me,"@, seq![1, 0, 0, 0, 0, 0], 0);
    crate::text::lemma_replace_none(seq![' ', '\u{a4}', '(', 'M', 'a', 'n', 'a', ')', '.'], " me,"@, " ¤(me),"@);
    assert(crate::text::witnessed(seq![' ', '\u{a4}', '(', 'M', 'a', 'n', 'a', ')', '.'], " me."@, seq![1, 0, 0, 0, 0, 0], 0)) by { reveal_with_fuel(crate::text::witnessed, 8); }
    crate::text::lemma_witnessed_none(seq![' ', '\u{a4}', '(', 'M', 'a', 'n', 'a', ')', '.'], " me."@, seq![1, 0, 0, 0, 0, 0], 0);
    crate::text::lemma_replace_none(seq![' ', '\u{a4}', '(', 'M', 'a', 'n', 'a', ')', '.'], " me."@, " ¤(me)."@);
    assert(crate::text::witnessed(seq![' ', '\u{a4}', '(', 'M', 'a', 'n', 'a', ')', '.'], " Me "@, seq![1, 0, 0, 0, 0, 0], 0)) by { reveal_with_fuel(crate::text::witnessed, 8); }
    crate::text::lemma_witnessed_none(seq![' ', '\u{a4}', '(', 'M', 'a', 'n', 'a', ')', '.'], " Me "@, seq![1, 0, 0, 0, 0, 0], 0);
    crate::text::lemma_replace_none(seq![' ', '\u{a4}', '(', 'M', 'a', 'n', 'a', ')', '.'], " Me "@, " ¤(Me) "@);
    assert(crate::text::witnessed(seq![' ', '\u{a4}', '(', 'M', 'a', 'n', 'a', ')', '.'], " Me,"@, seq![1, 0, 0, 0, 0, 0], 0)) by { reveal_with_fuel(crate::text::witnessed, 8); }
    crate::text::lemma_witnessed_none(seq![' ', '\u{a4}', '(', 'M', 'a', 'n', 'a', ')', '.'], " Me,"@, seq![1, 0, 0, 0, 0, 0], 0);
    crate::text::lemma_replace_none(seq![' ', '\u{a4}', '(', 'M', 'a', 'n', 'a', ')', '.'], " Me,"@, " ¤(Me),"@);
    assert(crate::text::witnessed(seq![' ', '\u{a4}', '(', 'M', 'a', 'n', 'a', ')', '.'], " Me."@, seq![1, 0, 0, 0, 0, 0], 0)) by { reveal_with_fuel(crate::text::witnessed, 8); }
    crate::text::lemma_witnessed_none(seq![' ', '\u{a4}', '(', 'M', 'a', 'n', 'a', ')', '.'], " Me."@, seq![1, 0, 0, 0, 0, 0], 0);
    crate::text::lemma_replace_none(seq![' ', '\u{a4}', '(', 'M', 'a', 'n', 'a', ')', '.'], " Me."@, " ¤(Me)."@);
    assert(crate::text::witnessed(seq![' ', '\u{a4}', '(', 'M', 'a', 'n', 'a', ')', '.'], "\nI "@, seq![0, 0, 0, 0, 0, 0, 0], 0)) by { reveal_with_fuel(crate::text::witnessed, 9); }
    crate::text::lemma_witnessed_none(seq![' ', '\u{a4}', '(', 'M', 'a', 'n', 'a', ')', '.'], "\nI "@, seq![0, 0, 0, 0, 0, 0, 0], 0);
    crate::text::lemma_replace_none(seq![' ', '\u{a4}', '(', 'M', 'a', 'n', 'a', ')', '.'], "\nI "@, "\n¤(I) "@);
    assert(crate::text::witnessed(seq![' ', '\u{a4}', '(', 'M', 'a', 'n', 'a', ')', '.'], ". I "@, seq![0, 0, 0, 0, 0, 0], 0)) by { reveal_with_fuel(crate::text::witnessed, 8); }
    crate::text::lemma_witnessed_none(seq![' ', '\u{a4}', '(', 'M', 'a', 'n', 'a', ')', '.'], ". I "@, seq![0, 0, 0, 0, 0, 0], 0);
    crate::text::lemma_replace_none(seq![' ', '\u{a4}', '(', 'M', 'a', 'n', 'a', ')', '.'], ". I "@, ". ¤(I) "@);
}

/// What group 4 makes of the middle of phrase 10.
proof fn lemma_phrase_10_group_4()
    ensures
        phrase_group_4(seq![' ', '\u{a4}', '(', 'M', 'a', 'n', 'a', ')', '.']) == seq![' ', '\u{a4}', '(', 'M', 'a', 'n', 'a', ')', '.'],
{
    reveal(phrase_group_4);
    reveal_strlit(" I ");
    reveal_strlit(" I,");
    reveal_strlit(" I.");
    reveal_strlit(" ¤(i) ");
    reveal_strlit(" ¤(i),");
    reveal_strlit(" ¤(i).");
    reveal_strlit(". I,");
    reveal_strlit(". I.");
    reveal_strlit(". ¤(I),");
    reveal_strlit(". ¤(I). ");
    reveal_strlit("Cards ¤(I am) attached to");
    reveal_strlit("The card ¤(I am) attached to");
    reveal_strlit("cards ¤(I am) attached to");
    reveal_strlit("the card ¤(I am) attached to");
    assert(crate::text::witnessed(seq![' ', '\u{a4}', '(', 'M', 'a', 'n', 'a', ')', '.'], ". I,"@, seq![0, 0, 0, 0, 0, 0], 0)) by { reveal_with_fuel(crate::text::witnessed, 8); }
    crate::text::lemma_witnessed_none(seq![' ', '\u{a4}', '(', 'M', 'a', 'n', 'a', ')', '.'], ". I,"@, seq![0, 0, 0, 0, 0, 0], 0);
    crate::text::lemma_replace_none(seq![' ', '\u{a4}', '(', 'M', 'a', 'n', 'a', ')', '.'], ". I,"@, ". ¤(I),"@);
    assert(crate::text::witnessed(seq![' ', '\u{a4}', '(', 'M', 'a', 'n', 'a', ')', '.'], ". I."@, seq![0, 0, 0, 0, 0, 0], 0)) by { reveal_with_fuel(crate::text::witnessed, 8); }
    crate::text::lemma_witnessed_none(seq![' ', '\u{a4}', '(', 'M', 'a', 'n', 'a', ')', '.'], ". I."@, seq![0, 0, 0, 0, 0, 0], 0);
    crate::text::lemma_replace_none(seq![' ', '\u{a4}', '(', 'M', 'a', 'n', 'a', ')', '.'], ". I."@, ". ¤(I). "@);
    assert(crate::text::witnessed(seq![' ', '\u{a4}', '(', 'M', 'a', 'n', 'a', ')', '.'], " I "@, seq![1, 0, 0, 0, 0, 0, 0], 0)) by { reveal_with_fuel(crate::text::witnessed, 9); }
    crate::text::lemma_witnessed_none(seq![' ', '\u{a4}', '(', 'M', 'a', 'n', 'a', ')', '.'], " I "@, seq![1, 0, 0, 0, 0, 0, 0], 0);
    crate::text::lemma_replace_none(seq![' ', '\u{a4}', '(', 'M', 'a', 'n', 'a', ')', '.'], " I "@, " ¤(i) "@);
    assert(crate::text::witnessed(seq![' ', '\u{a4}', '(', 'M', 'a', 'n', 'a', ')', '.'], " I,"@, seq![1, 0, 0, 0, 0, 0, 0], 0)) by { reveal_with_fuel(crate::text::witnessed, 9); }
    crate::text::lemma_witnessed_none(seq![' ', '\u{a4}', '(', 'M', 'a', 'n', 'a', ')', '.'], " I,"@, seq![1, 0, 0, 0, 0, 0, 0], 0);
    crate::text::lemma_replace_none(seq![' ', '\u{a4}', '(', 'M', 'a', 'n', 'a', ')', '.'], " I,"@, " ¤(i),"@);
    assert(crate::text::witnessed(seq![' ', '\u{a4}', '(', 'M', 'a', 'n', 'a', ')', '.'], " I."@, seq![1, 0, 0, 0, 0, 0, 0], 0)) by { reveal_with_fuel(crate::text::witnessed, 9); }
    crate::text::lemma_witnessed_none(seq![' ', '\u{a4}', '(', 'M', 'a', 'n', 'a', ')', '.'], " I."@, seq![1, 0, 0, 0, 0, 0, 0], 0);
    crate::text::lemma_replace_none(seq![' ', '\u{a4}', '(', 'M', 'a', 'n', 'a', ')', '.'], " I."@, " ¤(i)."@);
    assert(crate::text::witnessed(seq![' ', '\u{a4}', '(', 'M', 'a', 'n', 'a', ')', '.'], "Cards ¤(I am) attached to"@, seq![], 0)) by { reveal_with_fuel(crate::text::witnessed, 2); }
    crate::text::lemma_witnessed_none(seq![' ', '\u{a4}', '(', 'M', 'a', 'n', 'a', ')', '.'], "Cards ¤(I am) attached to"@, seq![], 0);
    crate::text::lemma_replace_none(seq![' ', '\u{a4}', '(', 'M', 'a', 'n', 'a', ')', '.'], "Cards ¤(I am) attached to"@, "The card ¤(I am) attached to"@);
    assert(crate::text::witnessed(seq![' ', '\u{a4}', '(', 'M', 'a', 'n', 'a', ')', '.'], "cards ¤(I am) attached to"@, seq![], 0)) by { reveal_with_fuel(crate::text::witnessed, 2); }
    crate::text::lemma_witnessed_none(seq![' ', '\u{a4}', '(', 'M', 'a', 'n', 'a', ')', '.'], "cards ¤(I am) attached to"@, seq![], 0);
    crate::text::lemma_replace_none(seq![' ', '\u{a4}', '(', 'M', 'a', 'n', 'a', ')', '.'], "cards ¤(I am) attached to"@, "the card ¤(I am) attached to"@);
}

/// Between digits, phrase 10 becomes what the card text makes of it.
proof fn lemma_phrase_10(x: Seq<char>, y: Seq<char>)
    requires
        all_digits(x),
        all_digits(y),
        trim(x + " Mana."@ + y) == x + " Mana."@ + y,
    ensures
        phrase_commands(x + " Mana."@ + y) == Some(x + seq![' ', '\u{a4}', '(', 'M', 'a', 'n', 'a', ')', '.'] + y),
{
    reveal_strlit(" Mana.");
    assert(" Mana."@ =~= seq![' ', 'M', 'a', 'n', 'a', '.']);
    reveal_strlit("Card with");
    reveal_strlit("card with");
    reveal_strlit("Cards with");
    reveal_strlit("cards with");
    let m0 = seq![' ', 'M', 'a', 'n', 'a', '.'];
    lemma_group_framed_0(x, m0, y);
    lemma_phrase_10_group_0();
    let m1 = phrase_group_0(m0);
    lemma_group_framed_1(x, m1, y);
    lemma_phrase_10_group_1();
    let m2 = phrase_group_1(m1);
    lemma_group_framed_2(x, m2, y);
    lemma_phrase_10_group_2();
    let m3 = phrase_group_2(m2);
    lemma_group_framed_3(x, m3, y);
    lemma_phrase_10_group_3();
    let m4 = phrase_group_3(m3);
    lemma_group_framed_4(x, m4, y);
    lemma_phrase_10_group_4();
    let m5 = phrase_group_4(m4);
    assert(crate::text::witnessed(seq![' ', '\u{a4}', '(', 'M', 'a', 'n', 'a', ')', '.'], "Card with"@, seq![0], 0)) by { reveal_with_fuel(crate::text::witnessed, 3); }
    crate::text::lemma_witnessed_none(seq![' ', '\u{a4}', '(', 'M', 'a', 'n', 'a', ')', '.'], "Card with"@, seq![0], 0);
    assert(digit_free("Card with"@));
    crate::text::lemma_replace_framed(x, seq![' ', '\u{a4}', '(', 'M', 'a', 'n', 'a', ')', '.'], y, "Card with"@, "Card with"@);
    assert(with_marker(WithPhrase::Card) == "Card with"@);
    assert(crate::text::witnessed(seq![' ', '\u{a4}', '(', 'M', 'a', 'n', 'a', ')', '.'], "card with"@, seq![0], 0)) by { reveal_with_fuel(crate::text::witnessed, 3); }
    crate::text::lemma_witnessed_none(seq![' ', '\u{a4}', '(', 'M', 'a', 'n', 'a', ')', '.'], "card with"@, seq![0], 0);
    assert(digit_free("card with"@));
    crate::text::lemma_replace_framed(x, seq![' ', '\u{a4}', '(', 'M', 'a', 'n', 'a', ')', '.'], y, "card with"@, "card with"@);
    assert(with_marker(WithPhrase::CardLower) == "card with"@);
    assert(crate::text::witnessed(seq![' ', '\u{a4}', '(', 'M', 'a', 'n', 'a', ')', '.'], "Cards with"@, seq![], 0)) by { reveal_with_fuel(crate::text::witnessed, 2); }
    crate::text::lemma_witnessed_none(seq![' ', '\u{a4}', '(', 'M', 'a', 'n', 'a', ')', '.'], "Cards with"@, seq![], 0);
    assert(digit_free("Cards with"@));
    crate::text::lemma_replace_framed(x, seq![' ', '\u{a4}', '(', 'M', 'a', 'n', 'a', ')', '.'], y, "Cards with"@, "Cards with"@);
    assert(with_marker(WithPhrase::Cards) == "Cards with"@);
    assert(crate::text::witnessed(seq![' ', '\u{a4}', '(', 'M', 'a', 'n', 'a', ')', '.'], "cards with"@, seq![], 0)) by { reveal_with_fuel(crate::text::witnessed, 2); }
    crate::text::lemma_witnessed_none(seq![' ', '\u{a4}', '(', 'M', 'a', 'n', 'a', ')', '.'], "cards with"@, seq![], 0);
    assert(digit_free("cards with"@));
    crate::text::lemma_replace_framed(x, seq![' ', '\u{a4}', '(', 'M', 'a', 'n', 'a', ')', '.'], y, "cards with"@, "cards with"@);
    assert(with_marker(WithPhrase::CardsLower) == "cards with"@);
}

/// What group 0 makes of the middle of phrase 11.
proof fn lemma_phrase_11_group_0()
    ensures
        phrase_group_0(seq![' ', 'M', 'a', 'n', 'a', ',']) == seq![' ', 'M', 'a', 'n', 'a', ','],
{
    reveal(phrase_group_0);
    reveal_strlit(" ");
    reveal_strlit("  ");
    reveal_strlit(" mana ");
    reveal_strlit(" ¤(mana) ");
    reveal_strlit("Boost");
    reveal_strlit("Experience");
    reveal_strlit("\n ");
    reveal_strlit("boost");
    reveal_strlit("experience");
    reveal_strlit("¤(Boost)");
    reveal_strlit("¤(Xp)");
    reveal_strlit("¤(boost)");
    reveal_strlit("¤(xp)");
    assert(crate::text::witnessed(seq![' ', 'M', 'a', 'n', 'a', ','], "\n "@, seq![0, 0, 0, 0, 0], 0)) by { reveal_with_fuel(crate::text::witnessed, 7); }
    crate::text::lemma_witnessed_none(seq![' ', 'M', 'a', 'n', 'a', ','], "\n "@, seq![0, 0, 0, 0, 0], 0);
    crate::text::lemma_replace_none(seq![' ', 'M', 'a', 'n', 'a', ','], "\n "@, " "@);
    assert(crate::text::witnessed(seq![' ', 'M', 'a', 'n', 'a', ','], "  "@, seq![1, 0, 0, 0, 0], 0)) by { reveal_with_fuel(crate::text::witnessed, 7); }
    crate::text::lemma_witnessed_none(seq![' ', 'M', 'a', 'n', 'a', ','], "  "@, seq![1, 0, 0, 0, 0], 0);
    crate::text::lemma_replace_none(seq![' ', 'M', 'a', 'n', 'a', ','], "  "@, " "@);
    assert(crate::text::witnessed(seq![' ', 'M', 'a', 'n', 'a', ','], "Boost"@, seq![0, 0], 0)) by { reveal_with_fuel(crate::text::witnessed, 4); }
    crate::text::lemma_witnessed_none(seq![' ', 'M', 'a', 'n', 'a', ','], "Boost"@, seq![0, 0], 0);
    crate::text::lemma_replace_none(seq![' ', 'M', 'a', 'n', 'a', ','], "Boost"@, "¤(Boost)"@);
    assert(crate::text::witnessed(seq![' ', 'M', 'a', 'n', 'a', ','], "boost"@, seq![0, 0], 0)) by { reveal_with_fuel(crate::text::witnessed, 4); }
    crate::text::lemma_witnessed_none(seq![' ', 'M', 'a', 'n', 'a', ','], "boost"@, seq![0, 0], 0);
    crate::text::lemma_replace_none(seq![' ', 'M', 'a', 'n', 'a', ','], "boost"@, "¤(boost)"@);
    assert(crate::text::witnessed(seq![' ', 'M', 'a', 'n', 'a', ','], "experience"@, seq![], 0)) by { reveal_with_fuel(crate::text::witnessed, 2); }
    crate::text::lemma_witnessed_none(seq![' ', 'M', 'a', 'n', 'a', ','], "experience"@, seq![], 0);
    crate::text::lemma_replace_none(seq![' ', 'M', 'a', 'n', 'a', ','], "experience"@, "¤(xp)"@);
    assert(crate::text::witnessed(seq![' ', 'M', 'a', 'n', 'a', ','], "Experience"@, seq![], 0)) by { reveal_with_fuel(crate::text::witnessed, 2); }
    crate::text::lemma_witnessed_none(seq![' ', 'M', 'a', 'n', 'a', ','], "Experience"@, seq![], 0);
    crate::text::lemma_replace_none(seq![' ', 'M', 'a', 'n', 'a', ','], "Experience"@, "¤(Xp)"@);
    assert(crate::text::witnessed(seq![' ', 'M', 'a', 'n', 'a', ','], " mana "@, seq![1], 0)) by { reveal_with_fuel(crate::text::witnessed, 3); }
    crate::text::lemma_witnessed_none(seq![' ', 'M', 'a', 'n', 'a', ','], " mana "@, seq![1], 0);
    crate::text::lemma_replace_none(seq![' ', 'M', 'a', 'n', 'a', ','], " mana "@, " ¤(mana) "@);
}

/// What group 1 makes of the middle of phrase 11.
proof fn lemma_phrase_11_group_1()
    ensures
        phrase_group_1(seq![' ', 'M', 'a', 'n', 'a', ',']) == seq![' ', '\u{a4}', '(', 'M', 'a', 'n', 'a', ')', ','],
{
    reveal(phrase_group_1);
    reveal_strlit(" Mana ");
    reveal_strlit(" Mana,");
    reveal_strlit(" Mana.");
    reveal_strlit(" mana,");
    reveal_strlit(" mana.");
    reveal_strlit(" ¤(Mana) ");
    reveal_strlit(" ¤(Mana),");
    reveal_strlit(" ¤(Mana).");
    reveal_strlit(" ¤(mana),");
    reveal_strlit(" ¤(mana).");
    reveal_strlit("I am");
    reveal_strlit("I'm");
    reveal_strlit("I’m");
    assert(crate::text::witnessed(seq![' ', 'M', 'a', 'n', 'a', ','], " mana."@, seq![1], 0)) by { reveal_with_fuel(crate::text::witnessed, 3); }
    crate::text::lemma_witnessed_none(seq![' ', 'M', 'a', 'n', 'a', ','], " mana."@, seq![1], 0);
    crate::text::lemma_replace_none(seq![' ', 'M', 'a', 'n', 'a', ','], " mana."@, " ¤(mana)."@);
    assert(crate::text::witnessed(seq![' ', 'M', 'a', 'n', 'a', ','], " mana,"@, seq![1], 0)) by { reveal_with_fuel(crate::text::witnessed, 3); }
    crate::text::lemma_witnessed_none(seq![' ', 'M', 'a', 'n', 'a', ','], " mana,"@, seq![1], 0);
    crate::text::lemma_replace_none(seq![' ', 'M', 'a', 'n', 'a', ','], " mana,"@, " ¤(mana),"@);
    assert(crate::text::witnessed(seq![' ', 'M', 'a', 'n', 'a', ','], " Mana "@, seq![5], 0)) by { reveal_with_fuel(crate::text::witnessed, 3); }
    crate::text::lemma_witnessed_none(seq![' ', 'M', 'a', 'n', 'a', ','], " Mana "@, seq![5], 0);
    crate::text::lemma_replace_none(seq![' ', 'M', 'a', 'n', 'a', ','], " Mana "@, " ¤(Mana) "@);
    assert(crate::text::witnessed(seq![' ', 'M', 'a', 'n', 'a', ','], " Mana."@, seq![5], 0)) by { reveal_with_fuel(crate::text::witnessed, 3); }
    crate::text::lemma_witnessed_none(seq![' ', 'M', 'a', 'n', 'a', ','], " Mana."@, seq![5], 0);
    crate::text::lemma_replace_none(seq![' ', 'M', 'a', 'n', 'a', ','], " Mana."@, " ¤(Mana)."@);
    assert(crate::text::witnessed_until(seq![' ', 'M', 'a', 'n', 'a', ','], " Mana,"@, seq![], 0, 0)) by { reveal_with_fuel(crate::text::witnessed_until, 2); }
    assert(crate::text::witnessed(seq![' ', 'M', 'a', 'n', 'a', ','], " Mana,"@, seq![0, 0, 0, 0, 0, 0], 6)) by { reveal_with_fuel(crate::text::witnessed, 8); }
    assert(seq![' ', 'M', 'a', 'n', 'a', ','].subrange(0, 6) =~= " Mana,"@);
    crate::text::lemma_replace_once(seq![' ', 'M', 'a', 'n', 'a', ','], " Mana,"@, " ¤(Mana),"@, 0, seq![], seq![0, 0, 0, 0, 0, 0]);
    assert(seq![' ', 'M', 'a', 'n', 'a', ','].subrange(0, 0) + " ¤(Mana),"@ + seq![' ', 'M', 'a', 'n', 'a', ','].subrange(6, 6) =~= seq![' ', '\u{a4}', '(', 'M', 'a', 'n', 'a', ')', ',']);
    assert(crate::text::witnessed(seq![' ', '\u{a4}', '(', 'M', 'a', 'n', 'a', ')', ','], "I’m"@, seq![0, 0, 0, 0, 0, 0, 0], 0)) by { reveal_with_fuel(crate::text::witnessed, 9); }
    crate::text::lemma_witnessed_none(seq![' ', '\u{a4}', '(', 'M', 'a', 'n', 'a', ')', ','], "I’m"@, seq![0, 0, 0, 0, 0, 0, 0], 0);
    crate::text::lemma_replace_none(seq![' ', '\u{a4}', '(', 'M', 'a', 'n', 'a', ')', ','], "I’m"@, "I am"@);
    assert(crate::text::witnessed(seq![' ', '\u{a4}', '(', 'M', 'a', 'n', 'a', ')', ','], "I'm"@, seq![0, 0, 0, 0, 0, 0, 0], 0)) by { reveal_with_fuel(crate::text::witnessed, 9); }
    crate::text::lemma_witnessed_none(seq![' ', '\u{a4}', '(', 'M', 'a', 'n', 'a', ')', ','], "I'm"@, seq![0, 0, 0, 0, 0, 0, 0], 0);
    crate::text::lemma_replace_none(seq![' ', '\u{a4}', '(', 'M', 'a', 'n', 'a', ')', ','], "I'm"@, "I am"@);
}

/// What group 2 makes of the middle of phrase 11.
proof fn lemma_phrase_11_group_2()
    ensures
        phrase_group_2(seq![' ', '\u{a4}', '(', 'M', 'a', 'n', 'a', ')', ',']) == seq![' ', '\u{a4}', '(', 'M', 'a', 'n', 'a', ')', ','],
{
    reveal(phrase_group_2);
    reveal_strlit(" I am ");
    reveal_strlit(" I have");
    reveal_strlit(" me ");
    reveal_strlit(" my ");
    reveal_strlit(" ¤(I have)");
    reveal_strlit(" ¤(i am) ");
    reveal_strlit(" ¤(i have)");
    reveal_strlit(" ¤(me) ");
    reveal_strlit(" ¤(my) ");
    reveal_strlit(". I am ");
    reveal_strlit(". I have");
    reveal_strlit(". My ");
    reveal_strlit(". ¤(I am) ");
    reveal_strlit(". ¤(My) ");
    assert(crate::text::witnessed(seq![' ', '\u{a4}', '(', 'M', 'a', 'n', 'a', ')', ','], ". I am "@, seq![0, 0, 0], 0)) by { reveal_with_fuel(crate::text::witnessed, 5); }
    crate::text::lemma_witnessed_none(seq![' ', '\u{a4}', '(', 'M', 'a', 'n', 'a', ')', ','], ". I am "@, seq![0, 0, 0], 0);
    crate::text::lemma_replace_none(seq![' ', '\u{a4}', '(', 'M', 'a', 'n', 'a', ')', ','], ". I am "@, ". ¤(I am) "@);
    assert(crate::text::witnessed(seq![' ', '\u{a4}', '(', 'M', 'a', 'n', 'a', ')', ','], " I am "@, seq![1, 0, 0, 0], 0)) by { reveal_with_fuel(crate::text::witnessed, 6); }
    crate::text::lemma_witnessed_none(seq![' ', '\u{a4}', '(', 'M', 'a', 'n', 'a', ')', ','], " I am "@, seq![1, 0, 0, 0], 0);
    crate::text::lemma_replace_none(seq![' ', '\u{a4}', '(', 'M', 'a', 'n', 'a', ')', ','], " I am "@, " ¤(i am) "@);
    assert(crate::text::witnessed(seq![' ', '\u{a4}', '(', 'M', 'a', 'n', 'a', ')', ','], " I have"@, seq![1, 0, 0], 0)) by { reveal_with_fuel(crate::text::witnessed, 5); }
    crate::text::lemma_witnessed_none(seq![' ', '\u{a4}', '(', 'M', 'a', 'n', 'a', ')', ','], " I have"@, seq![1, 0, 0], 0);
    crate::text::lemma_replace_none(seq![' ', '\u{a4}', '(', 'M', 'a', 'n', 'a', ')', ','], " I have"@, " ¤(i have)"@);
    assert(crate::text::witnessed(seq![' ', '\u{a4}', '(', 'M', 'a', 'n', 'a', ')', ','], ". I have"@, seq![0, 0], 0)) by { reveal_with_fuel(crate::text::witnessed, 4); }
    crate::text::lemma_witnessed_none(seq![' ', '\u{a4}', '(', 'M', 'a', 'n', 'a', ')', ','], ". I have"@, seq![0, 0], 0);
    crate::text::lemma_replace_none(seq![' ', '\u{a4}', '(', 'M', 'a', 'n', 'a', ')', ','], ". I have"@, " ¤(I have)"@);
    assert(crate::text::witnessed(seq![' ', '\u{a4}', '(', 'M', 'a', 'n', 'a', ')', ','], " my "@, seq![1, 0, 0, 0, 0, 0], 0)) by { reveal_with_fuel(crate::text::witnessed, 8); }
    crate::text::lemma_witnessed_none(seq![' ', '\u{a4}', '(', 'M', 'a', 'n', 'a', ')', ','], " my "@, seq![1, 0, 0, 0, 0, 0], 0);
    crate::text::lemma_replace_none(seq![' ', '\u{a4}', '(', 'M', 'a', 'n', 'a', ')', ','], " my "@, " ¤(my) "@);
    assert(crate::text::witnessed(seq![' ', '\u{a4}', '(', 'M', 'a', 'n', 'a', ')', ','], ". My "@, seq![0, 0, 0, 0, 0], 0)) by { reveal_with_fuel(crate::text::witnessed, 7); }
    crate::text::lemma_witnessed_none(seq![' ', '\u{a4}', '(', 'M', 'a', 'n', 'a', ')', ','], ". My "@, seq![0, 0, 0, 0, 0], 0);
    crate::text::lemma_replace_none(seq![' ', '\u{a4}', '(', 'M', 'a', 'n', 'a', ')', ','], ". My "@, ". ¤(My) "@);
    assert(crate::text::witnessed(seq![' ', '\u{a4}', '(', 'M', 'a', 'n', 'a', ')', ','], " me "@, seq![1, 0, 0, 0, 0, 0], 0)) by { reveal_with_fuel(crate::text::witnessed, 8); }
    crate::text::lemma_witnessed_none(seq![' ', '\u{a4}', '(', 'M', 'a', 'n', 'a', ')', ','], " me "@, seq![1, 0, 0, 0, 0, 0], 0);
    crate::text::lemma_replace_none(seq![' ', '\u{a4}', '(', 'M', 'a', 'n', 'a', ')', ','], " me "@, " ¤(me) "@);
}

/// What group 3 makes of the middle of phrase 11.
proof fn lemma_phrase_11_group_3()
    ensures
        phrase_group_3(seq![' ', '\u{a4}', '(', 'M', 'a', 'n', 'a', ')', ',']) == seq![' ', '\u{a4}', '(', 'M', 'a', 'n', 'a', ')', ','],
{
    reveal(phrase_group_3);
    reveal_strlit(" Me ");
    reveal_strlit(" Me,");
    reveal_strlit(" Me.");
    reveal_strlit(" me,");
    reveal_strlit(" me.");
    reveal_strlit(" ¤(Me) ");
    reveal_strlit(" ¤(Me),");
    reveal_strlit(" ¤(Me).");
    reveal_strlit(" ¤(me),");
    reveal_strlit(" ¤(me).");
    reveal_strlit(". I ");
    reveal_strlit(". ¤(I) ");
    reveal_strlit("\nI ");
    reveal_strlit("\n¤(I) ");
    assert(crate::text::witnessed(seq![' ', '\u{a4}', '(', 'M', 'a', 'n', 'a', ')', ','], " me,"@, seq![1, 0, 0, 0, 0, 0], 0)) by { reveal_with_fuel(crate::text::witnessed, 8); }
    crate::text::lemma_witnessed_none(seq![' ', '\u{a4}', '(', 'M', 'a', 'n', 'a', ')', ','], " me,"@, seq![1, 0, 0, 0, 0, 0], 0);
    crate::text::lemma_replace_none(seq![' ', '\u{a4}', '(', 'M', 'a', 'n', 'a', ')', ','], " me,"@, " ¤(me),"@);
    assert(crate::text::witnessed(seq![' ', '\u{a4}', '(', 'M', 'a', 'n', 'a', ')', ','], " me."@, seq![1, 0, 0, 0, 0, 0], 0)) by { reveal_with_fuel(crate::text::witnessed, 8); }
    crate::text::lemma_witnessed_none(seq![' ', '\u{a4}', '(', 'M', 'a', 'n', 'a', ')', ','], " me."@, seq![1, 0, 0, 0, 0, 0], 0);
    crate::text::lemma_replace_none(seq![' ', '\u{a4}', '(', 'M', 'a', 'n', 'a', ')', ','], " me."@, " ¤(me)."@);
    assert(crate::text::witnessed(seq![' ', '\u{a4}', '(', 'M', 'a', 'n', 'a', ')', ','], " Me "@, seq![1, 0, 0, 0, 0, 0], 0)) by { reveal_with_fuel(crate::text::witnessed, 8); }
    crate::text::lemma_witnessed_none(seq![' ', '\u{a4}', '(', 'M', 'a', 'n', 'a', ')', ','], " Me "@, seq![1, 0, 0, 0, 0, 0], 0);
    crate::text::lemma_replace_none(seq![' ', '\u{a4}', '(', 'M', 'a', 'n', 'a', ')', ','], " Me "@, " ¤(Me) "@);
    assert(crate::text::witnessed(seq![' ', '\u{a4}', '(', 'M', 'a', 'n', 'a', ')', ','], " Me,"@, seq![1, 0, 0, 0, 0, 0], 0)) by { reveal_with_fuel(crate::text::witnessed, 8); }
    crate::text::lemma_witnessed_none(seq![' ', '\u{a4}', '(', 'M', 'a', 'n', 'a', ')', ','], " Me,"@, seq![1, 0, 0, 0, 0, 0], 0);
    crate::text::lemma_replace_none(seq![' ', '\u{a4}', '(', 'M', 'a', 'n', 'a', ')', ','], " Me,"@, " ¤(Me),"@);
    assert(crate::text::witnessed(seq![' ', '\u{a4}', '(', 'M', 'a', 'n', 'a', ')', ','], " Me."@, seq![1, 0, 0, 0, 0, 0], 0)) by { reveal_with_fuel(crate::text::witnessed, 8); }
    crate::text::lemma_witnessed_none(seq![' ', '\u{a4}', '(', 'M', 'a', 'n', 'a', ')', ','], " Me."@, seq![1, 0, 0, 0, 0, 0], 0);
    crate::text::lemma_replace_none(seq![' ', '\u{a4}', '(', 'M', 'a', 'n', 'a', ')', ','], " Me."@, " ¤(Me)."@);
    assert(crate::text::witnessed(seq![' ', '\u{a4}', '(', 'M', 'a', 'n', 'a', ')', ','], "\nI "@, seq![0, 0, 0, 0, 0, 0, 0], 0)) by { reveal_with_fuel(crate::text::witnessed, 9); }
    crate::text::lemma_witnessed_none(seq![' ', '\u{a4}', '(', 'M', 'a', 'n', 'a', ')', ','], "\nI "@, seq![0, 0, 0, 0, 0, 0, 0], 0);
    crate::text::lemma_replace_none(seq![' ', '\u{a4}', '(', 'M', 'a', 'n', 'a', ')', ','], "\nI "@, "\n¤(I) "@);
    assert(crate::text::witnessed(seq![' ', '\u{a4}', '(', 'M', 'a', 'n', 'a', ')', ','], ". I "@, seq![0, 0, 0, 0, 0, 0], 0)) by { reveal_with_fuel(crate::text::witnessed, 8); }
    crate::text::lemma_witnessed_none(seq![' ', '\u{a4}', '(', 'M', 'a', 'n', 'a', ')', ','], ". I "@, seq![0, 0, 0, 0, 0, 0], 0);
    crate::text::lemma_replace_none(seq![' ', '\u{a4}', '(', 'M', 'a', 'n', 'a', ')', ','], ". I "@, ". ¤(I) "@);
}

/// What group 4 makes of the middle of phrase 11.
proof fn lemma_phrase_11_group_4()
    ensures
        phrase_group_4(seq![' ', '\u{a4}', '(', 'M', 'a', 'n', 'a', ')', ',']) == seq![' ', '\u{a4}', '(', 'M', 'a', 'n', 'a', ')', ','],
{
    reveal(phrase_group_4);
    reveal_strlit(" I ");
    reveal_strlit(" I,");
    reveal_strlit(" I.");
    reveal_strlit(" ¤(i) ");
    reveal_strlit(" ¤(i),");
    reveal_strlit(" ¤(i).");
    reveal_strlit(". I,");
    reveal_strlit(". I.");
    reveal_strlit(". ¤(I),");
    reveal_strlit(". ¤(I). ");
    reveal_strlit("Cards ¤(I am) attached to");
    reveal_strlit("The card ¤(I am) attached to");
    reveal_strlit("cards ¤(I am) attached to");
    reveal_strlit("the card ¤(I am) attached to");
    assert(crate::text::witnessed(seq![' ', '\u{a4}', '(', 'M', 'a', 'n', 'a', ')', ','], ". I,"@, seq![0, 0, 0, 0, 0, 0], 0)) by { reveal_with_fuel(crate::text::witnessed, 8); }
    crate::text::lemma_witnessed_none(seq![' ', '\u{a4}', '(', 'M', 'a', 'n', 'a', ')', ','], ". I,"@, seq![0, 0, 0, 0, 0, 0], 0);
    crate::text::lemma_replace_none(seq![' ', '\u{a4}', '(', 'M', 'a', 'n', 'a', ')', ','], ". I,"@, ". ¤(I),"@);
    assert(crate::text::witnessed(seq![' ', '\u{a4}', '(', 'M', 'a', 'n', 'a', ')', ','], ". I."@, seq![0, 0, 0, 0, 0, 0], 0)) by { reveal_with_fuel(crate::text::witnessed, 8); }
    crate::text::lemma_witnessed_none(seq![' ', '\u{a4}', '(', 'M', 'a', 'n', 'a', ')', ','], ". I."@, seq![0, 0, 0, 0, 0, 0], 0);
    crate::text::lemma_replace_none(seq![' ', '\u{a4}', '(', 'M', 'a', 'n', 'a', ')', ','], ". I."@, ". ¤(I). "@);
    assert(crate::text::witnessed(seq![' ', '\u{a4}', '(', 'M', 'a', 'n', 'a', ')', ','], " I "@, seq![1, 0, 0, 0, 0, 0, 0], 0)) by { reveal_with_fuel(crate::text::witnessed, 9); }
    crate::text::lemma_witnessed_none(seq![' ', '\u{a4}', '(', 'M', 'a', 'n', 'a', ')', ','], " I "@, seq![1, 0, 0, 0, 0, 0, 0], 0);
    crate::text::lemma_replace_none(seq![' ', '\u{a4}', '(', 'M', 'a', 'n', 'a', ')', ','], " I "@, " ¤(i) "@);
    assert(crate::text::witnessed(seq![' ', '\u{a4}', '(', 'M', 'a', 'n', 'a', ')', ','], " I,"@, seq![1, 0, 0, 0, 0, 0, 0], 0)) by { reveal_with_fuel(crate::text::witnessed, 9); }
    crate::text::lemma_witnessed_none(seq![' ', '\u{a4}', '(', 'M', 'a', 'n', 'a', ')', ','], " I,"@, seq![1, 0, 0, 0, 0, 0, 0], 0);
    crate::text::lemma_replace_none(seq![' ', '\u{a4}', '(', 'M', 'a', 'n', 'a', ')', ','], " I,"@, " ¤(i),"@);
    assert(crate::text::witnessed(seq![' ', '\u{a4}', '(', 'M', 'a', 'n', 'a', ')', ','], " I."@, seq![1, 0, 0, 0, 0, 0, 0], 0)) by { reveal_with_fuel(crate::text::witnessed, 9); }
    crate::text::lemma_witnessed_none(seq![' ', '\u{a4}', '(', 'M', 'a', 'n', 'a', ')', ','], " I."@, seq![1, 0, 0, 0, 0, 0, 0], 0);
    crate::text::lemma_replace_none(seq![' ', '\u{a4}', '(', 'M', 'a', 'n', 'a', ')', ','], " I."@, " ¤(i)."@);
    assert(crate::text::witnessed(seq![' ', '\u{a4}', '(', 'M', 'a', 'n', 'a', ')', ','], "Cards ¤(I am) attached to"@, seq![], 0)) by { reveal_with_fuel(crate::text::witnessed, 2); }
    crate::text::lemma_witnessed_none(seq![' ', '\u{a4}', '(', 'M', 'a', 'n', 'a', ')', ','], "Cards ¤(I am) attached to"@, seq![], 0);
    crate::text::lemma_replace_none(seq![' ', '\u{a4}', '(', 'M', 'a', 'n', 'a', ')', ','], "Cards ¤(I am) attached to"@, "The card ¤(I am) attached to"@);
    assert(crate::text::witnessed(seq![' ', '\u{a4}', '(', 'M', 'a', 'n', 'a', ')', ','], "cards ¤(I am) attached to"@, seq![], 0)) by { reveal_with_fuel(crate::text::witnessed, 2); }
    crate::text::lemma_witnessed_none(seq![' ', '\u{a4}', '(', 'M', 'a', 'n', 'a', ')', ','], "cards ¤(I am) attached to"@, seq![], 0);
    crate::text::lemma_replace_none(seq![' ', '\u{a4}', '(', 'M', 'a', 'n', 'a', ')', ','], "cards ¤(I am) attached to"@, "the card ¤(I am) attached to"@);
}

/// Between digits, phrase 11 becomes what the card text makes of it.
proof fn lemma_phrase_11(x: Seq<char>, y: Seq<char>)
    requires
        all_digits(x),
        all_digits(y),
        trim(x + " Mana,"@ + y) == x + " Mana,"@ + y,
    ensures
        phrase_commands(x + " Mana,"@ + y) == Some(x + seq![' ', '\u{a4}', '(', 'M', 'a', 'n', 'a', ')', ','] + y),
{
    reveal_strlit(" Mana,");
    assert(" Mana,"@ =~= seq![' ', 'M', 'a', 'n', 'a', ',']);
    reveal_strlit("Card with");
    reveal_strlit("card with");
    reveal_strlit("Cards with");
    reveal_strlit("cards with");
    let m0 = seq![' ', 'M', 'a', 'n', 'a', ','];
    lemma_group_framed_0(x, m0, y);
    lemma_phrase_11_group_0();
    let m1 = phrase_group_0(m0);
    lemma_group_framed_1(x, m1, y);
    lemma_phrase_11_group_1();
    let m2 = phrase_group_1(m1);
    lemma_group_framed_2(x, m2, y);
    lemma_phrase_11_group_2();
    let m3 = phrase_group_2(m2);
    lemma_group_framed_3(x, m3, y);
    lemma_phrase_11_group_3();
    let m4 = phrase_group_3(m3);
    lemma_group_framed_4(x, m4, y);
    lemma_phrase_11_group_4();
    let m5 = phrase_group_4(m4);
    assert(crate::text::witnessed(seq![' ', '\u{a4}', '(', 'M', 'a', 'n', 'a', ')', ','], "Card with"@, seq![0], 0)) by { reveal_with_fuel(crate::text::witnessed, 3); }
    crate::text::lemma_witnessed_none(seq![' ', '\u{a4}', '(', 'M', 'a', 'n', 'a', ')', ','], "Card with"@, seq![0], 0);
    assert(digit_free("Card with"@));
    crate::text::lemma_replace_framed(x, seq![' ', '\u{a4}', '(', 'M', 'a', 'n', 'a', ')', ','], y, "Card with"@, "Card with"@);
    assert(with_marker(WithPhrase::Card) == "Card with"@);
    assert(crate::text::witnessed(seq![' ', '\u{a4}', '(', 'M', 'a', 'n', 'a', ')', ','], "card with"@, seq![0], 0)) by { reveal_with_fuel(crate::text::witnessed, 3); }
    crate::text::lemma_witnessed_none(seq![' ', '\u{a4}', '(', 'M', 'a', 'n', 'a', ')', ','], "card with"@, seq![0], 0);
    assert(digit_free("card with"@));
    crate::text::lemma_replace_framed(x, seq![' ', '\u{a4}', '(', 'M', 'a', 'n', 'a', ')', ','], y, "card with"@, "card with"@);
    assert(with_marker(WithPhrase::CardLower) == "card with"@);
    assert(crate::text::witnessed(seq![' ', '\u{a4}', '(', 'M', 'a', 'n', 'a', ')', ','], "Cards with"@, seq![], 0)) by { reveal_with_fuel(crate::text::witnessed, 2); }
    crate::text::lemma_witnessed_none(seq![' ', '\u{a4}', '(', 'M', 'a', 'n', 'a', ')', ','], "Cards with"@, seq![], 0);
    assert(digit_free("Cards with"@));
    crate::text::lemma_replace_framed(x, seq![' ', '\u{a4}', '(', 'M', 'a', 'n', 'a', ')', ','], y, "Cards with"@, "Cards with"@);
    assert(with_marker(WithPhrase::Cards) == "Cards with"@);
    assert(crate::text::witnessed(seq![' ', '\u{a4}', '(', 'M', 'a', 'n', 'a', ')', ','], "cards with"@, seq![], 0)) by { reveal_with_fuel(crate::text::witnessed, 2); }
    crate::text::lemma_witnessed_none(seq![' ', '\u{a4}', '(', 'M', 'a', 'n', 'a', ')', ','], "cards with"@, seq![], 0);
    assert(digit_free("cards with"@));
    crate::text::lemma_replace_framed(x, seq![' ', '\u{a4}', '(', 'M', 'a', 'n', 'a', ')', ','], y, "cards with"@, "cards with"@);
    assert(with_marker(WithPhrase::CardsLower) == "cards with"@);
}

/// What group 0 makes of the middle of phrase 12.
proof fn lemma_phrase_12_group_0()
    ensures
        phrase_group_0(seq!['I', '’', 'm']) == seq!['I', '’', 'm'],
{
    reveal(phrase_group_0);
    reveal_strlit(" ");
    reveal_strlit("  ");
    reveal_strlit(" mana ");
    reveal_strlit(" ¤(mana) ");
    reveal_strlit("Boost");
    reveal_strlit("Experience");
    reveal_strlit("\n ");
    reveal_strlit("boost");
    reveal_strlit("experience");
    reveal_strlit("¤(Boost)");
    reveal_strlit("¤(Xp)");
    reveal_strlit("¤(boost)");
    reveal_strlit("¤(xp)");
    assert(crate::text::witnessed(seq!['I', '’', 'm'], "\n "@, seq![0, 0], 0)) by { reveal_with_fuel(crate::text::witnessed, 4); }
    crate::text::lemma_witnessed_none(seq!['I', '’', 'm'], "\n "@, seq![0, 0], 0);
    crate::text::lemma_replace_none(seq!['I', '’', 'm'], "\n "@, " "@);
    assert(crate::text::witnessed(seq!['I', '’', 'm'], "  "@, seq![0, 0], 0)) by { reveal_with_fuel(crate::text::witnessed, 4); }
    crate::text::lemma_witnessed_none(seq!['I', '’', 'm'], "  "@, seq![0, 0], 0);
    crate::text::lemma_replace_none(seq!['I', '’', 'm'], "  "@, " "@);
    assert(crate::text::witnessed(seq!['I', '’', 'm'], "Boost"@, seq![], 0)) by { reveal_with_fuel(crate::text::witnessed, 2); }
    crate::text::lemma_witnessed_none(seq!['I', '’', 'm'], "Boost"@, seq![], 0);
    crate::text::lemma_replace_none(seq!['I', '’', 'm'], "Boost"@, "¤(Boost)"@);
    assert(crate::text::witnessed(seq!['I', '’', 'm'], "boost"@, seq![], 0)) by { reveal_with_fuel(crate::text::witnessed, 2); }
    crate::text::lemma_witnessed_none(seq!['I', '’', 'm'], "boost"@, seq![], 0);
    crate::text::lemma_replace_none(seq!['I', '’', 'm'], "boost"@, "¤(boost)"@);
    assert(crate::text::witnessed(seq!['I', '’', 'm'], "experience"@, seq![], 0)) by { reveal_with_fuel(crate::text::witnessed, 2); }
    crate::text::lemma_witnessed_none(seq!['I', '’', 'm'], "experience"@, seq![], 0);
    crate::text::lemma_replace_none(seq!['I', '’', 'm'], "experience"@, "¤(xp)"@);
    assert(crate::text::witnessed(seq!['I', '’', 'm'], "Experience"@, seq![], 0)) by { reveal_with_fuel(crate::text::witnessed, 2); }
    crate::text::lemma_witnessed_none(seq!['I', '’', 'm'], "Experience"@, seq![], 0);
    crate::text::lemma_replace_none(seq!['I', '’', 'm'], "Experience"@, "¤(Xp)"@);
    assert(crate::text::witnessed(seq!['I', '’', 'm'], " mana "@, seq![], 0)) by { reveal_with_fuel(crate::text::witnessed, 2); }
    crate::text::lemma_witnessed_none(seq!['I', '’', 'm'], " mana "@, seq![], 0);
    crate::text::lemma_replace_none(seq!['I', '’', 'm'], " mana "@, " ¤(mana) "@);
}

/// What group 1 makes of the middle of phrase 12.
proof fn lemma_phrase_12_group_1()
    ensures
        phrase_group_1(seq!['I', '’', 'm']) == seq!['I', ' ', 'a', 'm'],
{
    reveal(phrase_group_1);
    reveal_strlit(" Mana ");
    reveal_strlit(" Mana,");
    reveal_strlit(" Mana.");
    reveal_strlit(" mana,");
    reveal_strlit(" mana.");
    reveal_strlit(" ¤(Mana) ");
    reveal_strlit(" ¤(Mana),");
    reveal_strlit(" ¤(Mana).");
    reveal_strlit(" ¤(mana),");
    reveal_strlit(" ¤(mana).");
    reveal_strlit("I am");
    reveal_strlit("I'm");
    reveal_strlit("I’m");
    assert(crate::text::witnessed(seq!['I', '’', 'm'], " mana."@, seq![], 0)) by { reveal_with_fuel(crate::text::witnessed, 2); }
    crate::text::lemma_witnessed_none(seq!['I', '’', 'm'], " mana."@, seq![], 0);
    crate::text::lemma_replace_none(seq!['I', '’', 'm'], " mana."@, " ¤(mana)."@);
    assert(crate::text::witnessed(seq!['I', '’', 'm'], " mana,"@, seq![], 0)) by { reveal_with_fuel(crate::text::witnessed, 2); }
    crate::text::lemma_witnessed_none(seq!['I', '’', 'm'], " mana,"@, seq![], 0);
    crate::text::lemma_replace_none(seq!['I', '’', 'm'], " mana,"@, " ¤(mana),"@);
    assert(crate::text::witnessed(seq!['I', '’', 'm'], " Mana "@, seq![], 0)) by { reveal_with_fuel(crate::text::witnessed, 2); }
    crate::text::lemma_witnessed_none(seq!['I', '’', 'm'], " Mana "@, seq![], 0);
    crate::text::lemma_replace_none(seq!['I', '’', 'm'], " Mana "@, " ¤(Mana) "@);
    assert(crate::text::witnessed(seq!['I', '’', 'm'], " Mana."@, seq![], 0)) by { reveal_with_fuel(crate::text::witnessed, 2); }
    crate::text::lemma_witnessed_none(seq!['I', '’', 'm'], " Mana."@, seq![], 0);
    crate::text::lemma_replace_none(seq!['I', '’', 'm'], " Mana."@, " ¤(Mana)."@);
    assert(crate::text::witnessed(seq!['I', '’', 'm'], " Mana,"@, seq![], 0)) by { reveal_with_fuel(crate::text::witnessed, 2); }
    crate::text::lemma_witnessed_none(seq!['I', '’', 'm'], " Mana,"@, seq![], 0);
    crate::text::lemma_replace_none(seq!['I', '’', 'm'], " Mana,"@, " ¤(Mana),"@);
    assert(crate::text::witnessed_until(seq!['I', '’', 'm'], "I’m"@, seq![], 0, 0)) by { reveal_with_fuel(crate::text::witnessed_until, 2); }
    assert(crate::text::witnessed(seq!['I', '’', 'm'], "I’m"@, seq![0, 0, 0], 3)) by { reveal_with_fuel(crate::text::witnessed, 5); }
    assert(seq!['I', '’', 'm'].subrange(0, 3) =~= "I’m"@);
    crate::text::lemma_replace_once(seq!['I', '’', 'm'], "I’m"@, "I am"@, 0, seq![], seq![0, 0, 0]);
    assert(seq!['I', '’', 'm'].subrange(0, 0) + "I am"@ + seq!['I', '’', 'm'].subrange(3, 3) =~= seq!['I', ' ', 'a', 'm']);
    assert(crate::text::witnessed(seq!['I', ' ', 'a', 'm'], "I'm"@, seq![1, 0], 0)) by { reveal_with_fuel(crate::text::witnessed, 4); }
    crate::text::lemma_witnessed_none(seq!['I', ' ', 'a', 'm'], "I'm"@, seq![1, 0], 0);
    crate::text::lemma_replace_none(seq!['I', ' ', 'a', 'm'], "I'm"@, "I am"@);
}

/// What group 2 makes of the middle of phrase 12.
proof fn lemma_phrase_12_group_2()
    ensures
        phrase_group_2(seq!['I', ' ', 'a', 'm']) == seq!['I', ' ', 'a', 'm'],
{
    reveal(phrase_group_2);
    reveal_strlit(" I am ");
    reveal_strlit(" I have");
    reveal_strlit(" me ");
    reveal_strlit(" my ");
    reveal_strlit(" ¤(I have)");
    reveal_strlit(" ¤(i am) ");
    reveal_strlit(" ¤(i have)");
    reveal_strlit(" ¤(me) ");
    reveal_strlit(" ¤(my) ");
    reveal_strlit(". I am ");
    reveal_strlit(". I have");
    reveal_strlit(". My ");
    reveal_strlit(". ¤(I am) ");
    reveal_strlit(". ¤(My) ");
    assert(crate::text::witnessed(seq!['I', ' ', 'a', 'm'], ". I am "@, seq![], 0)) by { reveal_with_fuel(crate::text::witnessed, 2); }
    crate::text::lemma_witnessed_none(seq!['I', ' ', 'a', 'm'], ". I am "@, seq![], 0);
    crate::text::lemma_replace_none(seq!['I', ' ', 'a', 'm'], ". I am "@, ". ¤(I am) "@);
    assert(crate::text::witnessed(seq!['I', ' ', 'a', 'm'], " I am "@, seq![], 0)) by { reveal_with_fuel(crate::text::witnessed, 2); }
    crate::text::lemma_witnessed_none(seq!['I', ' ', 'a', 'm'], " I am "@, seq![], 0);
    crate::text::lemma_replace_none(seq!['I', ' ', 'a', 'm'], " I am "@, " ¤(i am) "@);
    assert(crate::text::witnessed(seq!['I', ' ', 'a', 'm'], " I have"@, seq![], 0)) by { reveal_with_fuel(crate::text::witnessed, 2); }
    crate::text::lemma_witnessed_none(seq!['I', ' ', 'a', 'm'], " I have"@, seq![], 0);
    crate::text::lemma_replace_none(seq!['I', ' ', 'a', 'm'], " I have"@, " ¤(i have)"@);
    assert(crate::text::witnessed(seq!['I', ' ', 'a', 'm'], ". I have"@, seq![], 0)) by { reveal_with_fuel(crate::text::witnessed, 2); }
    crate::text::lemma_witnessed_none(seq!['I', ' ', 'a', 'm'], ". I have"@, seq![], 0);
    crate::text::lemma_replace_none(seq!['I', ' ', 'a', 'm'], ". I have"@, " ¤(I have)"@);
    assert(crate::text::witnessed(seq!['I', ' ', 'a', 'm'], " my "@, seq![0], 0)) by { reveal_with_fuel(crate::text::witnessed, 3); }
    crate::text::lemma_witnessed_none(seq!['I', ' ', 'a', 'm'], " my "@, seq![0], 0);
    crate::text::lemma_replace_none(seq!['I', ' ', 'a', 'm'], " my "@, " ¤(my) "@);
    assert(crate::text::witnessed(seq!['I', ' ', 'a', 'm'], ". My "@, seq![], 0)) by { reveal_with_fuel(crate::text::witnessed, 2); }
    crate::text::lemma_witnessed_none(seq!['I', ' ', 'a', 'm'], ". My "@, seq![], 0);
    crate::text::lemma_replace_none(seq!['I', ' ', 'a', 'm'], ". My "@, ". ¤(My) "@);
    assert(crate::text::witnessed(seq!['I', ' ', 'a', 'm'], " me "@, seq![0], 0)) by { reveal_with_fuel(crate::text::witnessed, 3); }
    crate::text::lemma_witnessed_none(seq!['I', ' ', 'a', 'm'], " me "@, seq![0], 0);
    crate::text::lemma_replace_none(seq!['I', ' ', 'a', 'm'], " me "@, " ¤(me) "@);
}

/// What group 3 makes of the middle of phrase 12.
proof fn lemma_phrase_12_group_3()
    ensures
        phrase_group_3(seq!['I', ' ', 'a', 'm']) == seq!['I', ' ', 'a', 'm'],
{
    reveal(phrase_group_3);
    reveal_strlit(" Me ");
    reveal_strlit(" Me,");
    reveal_strlit(" Me.");
    reveal_strlit(" me,");
    reveal_strlit(" me.");
    reveal_strlit(" ¤(Me) ");
    reveal_strlit(" ¤(Me),");
    reveal_strlit(" ¤(Me).");
    reveal_strlit(" ¤(me),");
    reveal_strlit(" ¤(me).");
    reveal_strlit(". I ");
    reveal_strlit(". ¤(I) ");
    reveal_strlit("\nI ");
    reveal_strlit("\n¤(I) ");
    assert(crate::text::witnessed(seq!['I', ' ', 'a', 'm'], " me,"@, seq![0], 0)) by { reveal_with_fuel(crate::text::witnessed, 3); }
    crate::text::lemma_witnessed_none(seq!['I', ' ', 'a', 'm'], " me,"@, seq![0], 0);
    crate::text::lemma_replace_none(seq!['I', ' ', 'a', 'm'], " me,"@, " ¤(me),"@);
    assert(crate::text::witnessed(seq!['I', ' ', 'a', 'm'], " me."@, seq![0], 0)) by { reveal_with_fuel(crate::text::witnessed, 3); }
    crate::text::lemma_witnessed_none(seq!['I', ' ', 'a', 'm'], " me."@, seq![0], 0);
    crate::text::lemma_replace_none(seq!['I', ' ', 'a', 'm'], " me."@, " ¤(me)."@);
    assert(crate::text::witnessed(seq!['I', ' ', 'a', 'm'], " Me "@, seq![0], 0)) by { reveal_with_fuel(crate::text::witnessed, 3); }
    crate::text::lemma_witnessed_none(seq!['I', ' ', 'a', 'm'], " Me "@, seq![0], 0);
    crate::text::lemma_replace_none(seq!['I', ' ', 'a', 'm'], " Me "@, " ¤(Me) "@);
    assert(crate::text::witnessed(seq!['I', ' ', 'a', 'm'], " Me,"@, seq![0], 0)) by { reveal_with_fuel(crate::text::witnessed, 3); }
    crate::text::lemma_witnessed_none(seq!['I', ' ', 'a', 'm'], " Me,"@, seq![0], 0);
    crate::text::lemma_replace_none(seq!['I', ' ', 'a', 'm'], " Me,"@, " ¤(Me),"@);
    assert(crate::text::witnessed(seq!['I', ' ', 'a', 'm'], " Me."@, seq![0], 0)) by { reveal_with_fuel(crate::text::witnessed, 3); }
    crate::text::lemma_witnessed_none(seq!['I', ' ', 'a', 'm'], " Me."@, seq![0], 0);
    crate::text::lemma_replace_none(seq!['I', ' ', 'a', 'm'], " Me."@, " ¤(Me)."@);
    assert(crate::text::witnessed(seq!['I', ' ', 'a', 'm'], "\nI "@, seq![0, 0], 0)) by { reveal_with_fuel(crate::text::witnessed, 4); }
    crate::text::lemma_witnessed_none(seq!['I', ' ', 'a', 'm'], "\nI "@, seq![0, 0], 0);
    crate::text::lemma_replace_none(seq!['I', ' ', 'a', 'm'], "\nI "@, "\n¤(I) "@);
    assert(crate::text::witnessed(seq!['I', ' ', 'a', 'm'], ". I "@, seq![0], 0)) by { reveal_with_fuel(crate::text::witnessed, 3); }
    crate::text::lemma_witnessed_none(seq!['I', ' ', 'a', 'm'], ". I "@, seq![0], 0);
    crate::text::lemma_replace_none(seq!['I', ' ', 'a', 'm'], ". I "@, ". ¤(I) "@);
}

/// What group 4 makes of the middle of phrase 12.
proof fn lemma_phrase_12_group_4()
    ensures
        phrase_group_4(seq!['I', ' ', 'a', 'm']) == seq!['I', ' ', 'a', 'm'],
{
    reveal(phrase_group_4);
    reveal_strlit(" I ");
    reveal_strlit(" I,");
    reveal_strlit(" I.");
    reveal_strlit(" ¤(i) ");
    reveal_strlit(" ¤(i),");
    reveal_strlit(" ¤(i).");
    reveal_strlit(". I,");
    reveal_strlit(". I.");
    reveal_strlit(". ¤(I),");
    reveal_strlit(". ¤(I). ");
    reveal_strlit("Cards ¤(I am) attached to");
    reveal_strlit("The card ¤(I am) attached to");
    reveal_strlit("cards ¤(I am) attached to");
    reveal_strlit("the card ¤(I am) attached to");
    assert(crate::text::witnessed(seq!['I', ' ', 'a', 'm'], ". I,"@, seq![0], 0)) by { reveal_with_fuel(crate::text::witnessed, 3); }
    crate::text::lemma_witnessed_none(seq!['I', ' ', 'a', 'm'], ". I,"@, seq![0], 0);
    crate::text::lemma_replace_none(seq!['I', ' ', 'a', 'm'], ". I,"@, ". ¤(I),"@);
    assert(crate::text::witnessed(seq!['I', ' ', 'a', 'm'], ". I."@, seq![0], 0)) by { reveal_with_fuel(crate::text::witnessed, 3); }
    crate::text::lemma_witnessed_none(seq!['I', ' ', 'a', 'm'], ". I."@, seq![0], 0);
    crate::text::lemma_replace_none(seq!['I', ' ', 'a', 'm'], ". I."@, ". ¤(I). "@);
    assert(crate::text::witnessed(seq!['I', ' ', 'a', 'm'], " I "@, seq![0, 1], 0)) by { reveal_with_fuel(crate::text::witnessed, 4); }
    crate::text::lemma_witnessed_none(seq!['I', ' ', 'a', 'm'], " I "@, seq![0, 1], 0);
    crate::text::lemma_replace_none(seq!['I', ' ', 'a', 'm'], " I "@, " ¤(i) "@);
    assert(crate::text::witnessed(seq!['I', ' ', 'a', 'm'], " I,"@, seq![0, 1], 0)) by { reveal_with_fuel(crate::text::witnessed, 4); }
    crate::text::lemma_witnessed_none(seq!['I', ' ', 'a', 'm'], " I,"@, seq![0, 1], 0);
    crate::text::lemma_replace_none(seq!['I', ' ', 'a', 'm'], " I,"@, " ¤(i),"@);
    assert(crate::text::witnessed(seq!['I', ' ', 'a', 'm'], " I."@, seq![0, 1], 0)) by { reveal_with_fuel(crate::text::witnessed, 4); }
    crate::text::lemma_witnessed_none(seq!['I', ' ', 'a', 'm'], " I."@, seq![0, 1], 0);
    crate::text::lemma_replace_none(seq!['I', ' ', 'a', 'm'], " I."@, " ¤(i)."@);
    assert(crate::text::witnessed(seq!['I', ' ', 'a', 'm'], "Cards ¤(I am) attached to"@, seq![], 0)) by { reveal_with_fuel(crate::text::witnessed, 2); }
    crate::text::lemma_witnessed_none(seq!['I', ' ', 'a', 'm'], "Cards ¤(I am) attached to"@, seq![], 0);
    crate::text::lemma_replace_none(seq!['I', ' ', 'a', 'm'], "Cards ¤(I am) attached to"@, "The card ¤(I am) attached to"@);
    assert(crate::text::witnessed(seq!['I', ' ', 'a', 'm'], "cards ¤(I am) attached to"@, seq![], 0)) by { reveal_with_fuel(crate::text::witnessed, 2); }
    crate::text::lemma_witnessed_none(seq!['I', ' ', 'a', 'm'], "cards ¤(I am) attached to"@, seq![], 0);
    crate::text::lemma_replace_none(seq!['I', ' ', 'a', 'm'], "cards ¤(I am) attached to"@, "the card ¤(I am) attached to"@);
}

/// Between digits, phrase 12 becomes what the card text makes of it.
proof fn lemma_phrase_12(x: Seq<char>, y: Seq<char>)
    requires
        all_digits(x),
        all_digits(y),
        trim(x + "I’m"@ + y) == x + "I’m"@ + y,
    ensures
        phrase_commands(x + "I’m"@ + y) == Some(x + seq!['I', ' ', 'a', 'm'] + y),
{
    reveal_strlit("I’m");
    assert("I’m"@ =~= seq!['I', '’', 'm']);
    reveal_strlit("Card with");
    reveal_strlit("card with");
    reveal_strlit("Cards with");
    reveal_strlit("cards with");
    let m0 = seq!['I', '’', 'm'];
    lemma_group_framed_0(x, m0, y);
    lemma_phrase_12_group_0();
    let m1 = phrase_group_0(m0);
    lemma_group_framed_1(x, m1, y);
    lemma_phrase_12_group_1();
    let m2 = phrase_group_1(m1);
    lemma_group_framed_2(x, m2, y);
    lemma_phrase_12_group_2();
    let m3 = phrase_group_2(m2);
    lemma_group_framed_3(x, m3, y);
    lemma_phrase_12_group_3();
    let m4 = phrase_group_3(m3);
    lemma_group_framed_4(x, m4, y);
    lemma_phrase_12_group_4();
    let m5 = phrase_group_4(m4);
    assert(crate::text::witnessed(seq!['I', ' ', 'a', 'm'], "Card with"@, seq![], 0)) by { reveal_with_fuel(crate::text::witnessed, 2); }
    crate::text::lemma_witnessed_none(seq!['I', ' ', 'a', 'm'], "Card with"@, seq![], 0);
    assert(digit_free("Card with"@));
    crate::text::lemma_replace_framed(x, seq!['I', ' ', 'a', 'm'], y, "Card with"@, "Card with"@);
    assert(with_marker(WithPhrase::Card) == "Card with"@);
    assert(crate::text::witnessed(seq!['I', ' ', 'a', 'm'], "card with"@, seq![], 0)) by { reveal_with_fuel(crate::text::witnessed, 2); }
    crate::text::lemma_witnessed_none(seq!['I', ' ', 'a', 'm'], "card with"@, seq![], 0);
    assert(digit_free("card with"@));
    crate::text::lemma_replace_framed(x, seq!['I', ' ', 'a', 'm'], y, "card with"@, "card with"@);
    assert(with_marker(WithPhrase::CardLower) == "card with"@);
    assert(crate::text::witnessed(seq!['I', ' ', 'a', 'm'], "Cards with"@, seq![], 0)) by { reveal_with_fuel(crate::text::witnessed, 2); }
    crate::text::lemma_witnessed_none(seq!['I', ' ', 'a', 'm'], "Cards with"@, seq![], 0);
    assert(digit_free("Cards with"@));
    crate::text::lemma_replace_framed(x, seq!['I', ' ', 'a', 'm'], y, "Cards with"@, "Cards with"@);
    assert(with_marker(WithPhrase::Cards) == "Cards with"@);
    assert(crate::text::witnessed(seq!['I', ' ', 'a', 'm'], "cards with"@, seq![], 0)) by { reveal_with_fuel(crate::text::witnessed, 2); }
    crate::text::lemma_witnessed_none(seq!['I', ' ', 'a', 'm'], "cards with"@, seq![], 0);
    assert(digit_free("cards with"@));
    crate::text::lemma_replace_framed(x, seq!['I', ' ', 'a', 'm'], y, "cards with"@, "cards with"@);
    assert(with_marker(WithPhrase::CardsLower) == "cards with"@);
}

/// What group 0 makes of the middle of phrase 13.
proof fn lemma_phrase_13_group_0()
    ensures
        phrase_group_0(seq!['I', '\'', 'm']) == seq!['I', '\'', 'm'],
{
    reveal(phrase_group_0);
    reveal_strlit(" ");
    reveal_strlit("  ");
    reveal_strlit(" mana ");
    reveal_strlit(" ¤(mana) ");
    reveal_strlit("Boost");
    reveal_strlit("Experience");
    reveal_strlit("\n ");
    reveal_strlit("boost");
    reveal_strlit("experience");
    reveal_strlit("¤(Boost)");
    reveal_strlit("¤(Xp)");
    reveal_strlit("¤(boost)");
    reveal_strlit("¤(xp)");
    assert(crate::text::witnessed(seq!['I', '\'', 'm'], "\n "@, seq![0, 0], 0)) by { reveal_with_fuel(crate::text::witnessed, 4); }
    crate::text::lemma_witnessed_none(seq!['I', '\'', 'm'], "\n "@, seq![0, 0], 0);
    crate::text::lemma_replace_none(seq!['I', '\'', 'm'], "\n "@, " "@);
    assert(crate::text::witnessed(seq!['I', '\'', 'm'], "  "@, seq![0, 0], 0)) by { reveal_with_fuel(crate::text::witnessed, 4); }
    crate::text::lemma_witnessed_none(seq!['I', '\'', 'm'], "  "@, seq![0, 0], 0);
    crate::text::lemma_replace_none(seq!['I', '\'', 'm'], "  "@, " "@);
    assert(crate::text::witnessed(seq!['I', '\'', 'm'], "Boost"@, seq![], 0)) by { reveal_with_fuel(crate::text::witnessed, 2); }
    crate::text::lemma_witnessed_none(seq!['I', '\'', 'm'], "Boost"@, seq![], 0);
    crate::text::lemma_replace_none(seq!['I', '\'', 'm'], "Boost"@, "¤(Boost)"@);
    assert(crate::text::witnessed(seq!['I', '\'', 'm'], "boost"@, seq![], 0)) by { reveal_with_fuel(crate::text::witnessed, 2); }
    crate::text::lemma_witnessed_none(seq!['I', '\'', 'm'], "boost"@, seq![], 0);
    crate::text::lemma_replace_none(seq!['I', '\'', 'm'], "boost"@, "¤(boost)"@);
    assert(crate::text::witnessed(seq!['I', '\'', 'm'], "experience"@, seq![], 0)) by { reveal_with_fuel(crate::text::witnessed, 2); }
    crate::text::lemma_witnessed_none(seq!['I', '\'', 'm'], "experience"@, seq![], 0);
    crate::text::lemma_replace_none(seq!['I', '\'', 'm'], "experience"@, "¤(xp)"@);
    assert(crate::text::witnessed(seq!['I', '\'', 'm'], "Experience"@, seq![], 0)) by { reveal_with_fuel(crate::text::witnessed, 2); }
    crate::text::lemma_witnessed_none(seq!['I', '\'', 'm'], "Experience"@, seq![], 0);
    crate::text::lemma_replace_none(seq!['I', '\'', 'm'], "Experience"@, "¤(Xp)"@);
    assert(crate::text::witnessed(seq!['I', '\'', 'm'], " mana "@, seq![], 0)) by { reveal_with_fuel(crate::text::witnessed, 2); }
    crate::text::lemma_witnessed_none(seq!['I', '\'', 'm'], " mana "@, seq![], 0);
    crate::text::lemma_replace_none(seq!['I', '\'', 'm'], " mana "@, " ¤(mana) "@);
}

/// What group 1 makes of the middle of phrase 13.
proof fn lemma_phrase_13_group_1()
    ensures
        phrase_group_1(seq!['I', '\'', 'm']) == seq!['I', ' ', 'a', 'm'],
{
    reveal(phrase_group_1);
    reveal_strlit(" Mana ");
    reveal_strlit(" Mana,");
    reveal_strlit(" Mana.");
    reveal_strlit(" mana,");
    reveal_strlit(" mana.");
    reveal_strlit(" ¤(Mana) ");
    reveal_strlit(" ¤(Mana),");
    reveal_strlit(" ¤(Mana).");
    reveal_strlit(" ¤(mana),");
    reveal_strlit(" ¤(mana).");
    reveal_strlit("I am");
    reveal_strlit("I'm");
    reveal_strlit("I’m");
    assert(crate::text::witnessed(seq!['I', '\'', 'm'], " mana."@, seq![], 0)) by { reveal_with_fuel(crate::text::witnessed, 2); }
    crate::text::lemma_witnessed_none(seq!['I', '\'', 'm'], " mana."@, seq![], 0);
    crate::text::lemma_replace_none(seq!['I', '\'', 'm'], " mana."@, " ¤(mana)."@);
    assert(crate::text::witnessed(seq!['I', '\'', 'm'], " mana,"@, seq![], 0)) by { reveal_with_fuel(crate::text::witnessed, 2); }
    crate::text::lemma_witnessed_none(seq!['I', '\'', 'm'], " mana,"@, seq![], 0);
    crate::text::lemma_replace_none(seq!['I', '\'', 'm'], " mana,"@, " ¤(mana),"@);
    assert(crate::text::witnessed(seq!['I', '\'', 'm'], " Mana "@, seq![], 0)) by { reveal_with_fuel(crate::text::witnessed, 2); }
    crate::text::lemma_witnessed_none(seq!['I', '\'', 'm'], " Mana "@, seq![], 0);
    crate::text::lemma_replace_none(seq!['I', '\'', 'm'], " Mana "@, " ¤(Mana) "@);
    assert(crate::text::witnessed(seq!['I', '\'', 'm'], " Mana."@, seq![], 0)) by { reveal_with_fuel(crate::text::witnessed, 2); }
    crate::text::lemma_witnessed_none(seq!['I', '\'', 'm'], " Mana."@, seq![], 0);
    crate::text::lemma_replace_none(seq!['I', '\'', 'm'], " Mana."@, " ¤(Mana)."@);
    assert(crate::text::witnessed(seq!['I', '\'', 'm'], " Mana,"@, seq![], 0)) by { reveal_with_fuel(crate::text::witnessed, 2); }
    crate::text::lemma_witnessed_none(seq!['I', '\'', 'm'], " Mana,"@, seq![], 0);
    crate::text::lemma_replace_none(seq!['I', '\'', 'm'], " Mana,"@, " ¤(Mana),"@);
    assert(crate::text::witnessed(seq!['I', '\'', 'm'], "I’m"@, seq![1], 0)) by { reveal_with_fuel(crate::text::witnessed, 3); }
    crate::text::lemma_witnessed_none(seq!['I', '\'', 'm'], "I’m"@, seq![1], 0);
    crate::text::lemma_replace_none(seq!['I', '\'', 'm'], "I’m"@, "I am"@);
    assert(crate::text::witnessed_until(seq!['I', '\'', 'm'], "I'm"@, seq![], 0, 0)) by { reveal_with_fuel(crate::text::witnessed_until, 2); }
    assert(crate::text::witnessed(seq!['I', '\'', 'm'], "I'm"@, seq![0, 0, 0], 3)) by { reveal_with_fuel(crate::text::witnessed, 5); }
    assert(seq!['I', '\'', 'm'].subrange(0, 3) =~= "I'm"@);
    crate::text::lemma_replace_once(seq!['I', '\'', 'm'], "I'm"@, "I am"@, 0, seq![], seq![0, 0, 0]);
    assert(seq!['I', '\'', 'm'].subrange(0, 0) + "I am"@ + seq!['I', '\'', 'm'].subrange(3, 3) =~= seq!['I', ' ', 'a', 'm']);
}

/// What group 2 makes of the middle of phrase 13.
proof fn lemma_phrase_13_group_2()
    ensures
        phrase_group_2(seq!['I', ' ', 'a', 'm']) == seq!['I', ' ', 'a', 'm'],
{
    reveal(phrase_group_2);
    reveal_strlit(" I am ");
    reveal_strlit(" I have");
    reveal_strlit(" me ");
    reveal_strlit(" my ");
    reveal_strlit(" ¤(I have)");
    reveal_strlit(" ¤(i am) ");
    reveal_strlit(" ¤(i have)");
    reveal_strlit(" ¤(me) ");
    reveal_strlit(" ¤(my) ");
    reveal_strlit(". I am ");
    reveal_strlit(". I have");
    reveal_strlit(". My ");
    reveal_strlit(". ¤(I am) ");
    reveal_strlit(". ¤(My) ");
    assert(crate::text::witnessed(seq!['I', ' ', 'a', 'm'], ". I am "@, seq![], 0)) by { reveal_with_fuel(crate::text::witnessed, 2); }
    crate::text::lemma_witnessed_none(seq!['I', ' ', 'a', 'm'], ". I am "@, seq![], 0);
    crate::text::lemma_replace_none(seq!['I', ' ', 'a', 'm'], ". I am "@, ". ¤(I am) "@);
    assert(crate::text::witnessed(seq!['I', ' ', 'a', 'm'], " I am "@, seq![], 0)) by { reveal_with_fuel(crate::text::witnessed, 2); }
    crate::text::lemma_witnessed_none(seq!['I', ' ', 'a', 'm'], " I am "@, seq![], 0);
    crate::text::lemma_replace_none(seq!['I', ' ', 'a', 'm'], " I am "@, " ¤(i am) "@);
    assert(crate::text::witnessed(seq!['I', ' ', 'a', 'm'], " I have"@, seq![], 0)) by { reveal_with_fuel(crate::text::witnessed, 2); }
    crate::text::lemma_witnessed_none(seq!['I', ' ', 'a', 'm'], " I have"@, seq![], 0);
    crate::text::lemma_replace_none(seq!['I', ' ', 'a', 'm'], " I have"@, " ¤(i have)"@);
    assert(crate::text::witnessed(seq!['I', ' ', 'a', 'm'], ". I have"@, seq![], 0)) by { reveal_with_fuel(crate::text::witnessed, 2); }
    crate::text::lemma_witnessed_none(seq!['I', ' ', 'a', 'm'], ". I have"@, seq![], 0);
    crate::text::lemma_replace_none(seq!['I', ' ', 'a', 'm'], ". I have"@, " ¤(I have)"@);
    assert(crate::text::witnessed(seq!['I', ' ', 'a', 'm'], " my "@, seq![0], 0)) by { reveal_with_fuel(crate::text::witnessed, 3); }
    crate::text::lemma_witnessed_none(seq!['I', ' ', 'a', 'm'], " my "@, seq![0], 0);
    crate::text::lemma_replace_none(seq!['I', ' ', 'a', 'm'], " my "@, " ¤(my) "@);
    assert(crate::text::witnessed(seq!['I', ' ', 'a', 'm'], ". My "@, seq![], 0)) by { reveal_with_fuel(crate::text::witnessed, 2); }
    crate::text::lemma_witnessed_none(seq!['I', ' ', 'a', 'm'], ". My "@, seq![], 0);
    crate::text::lemma_replace_none(seq!['I', ' ', 'a', 'm'], ". My "@, ". ¤(My) "@);
    assert(crate::text::witnessed(seq!['I', ' ', 'a', 'm'], " me "@, seq![0], 0)) by { reveal_with_fuel(crate::text::witnessed, 3); }
    crate::text::lemma_witnessed_none(seq!['I', ' ', 'a', 'm'], " me "@, seq![0], 0);
    crate::text::lemma_replace_none(seq!['I', ' ', 'a', 'm'], " me "@, " ¤(me) "@);
}

/// What group 3 makes of the middle of phrase 13.
proof fn lemma_phrase_13_group_3()
    ensures
        phrase_group_3(seq!['I', ' ', 'a', 'm']) == seq!['I', ' ', 'a', 'm'],
{
    reveal(phrase_group_3);
    reveal_strlit(" Me ");
    reveal_strlit(" Me,");
    reveal_strlit(" Me.");
    reveal_strlit(" me,");
    reveal_strlit(" me.");
    reveal_strlit(" ¤(Me) ");
    reveal_strlit(" ¤(Me),");
    reveal_strlit(" ¤(Me).");
    reveal_strlit(" ¤(me),");
    reveal_strlit(" ¤(me).");
    reveal_strlit(". I ");
    reveal_strlit(". ¤(I) ");
    reveal_strlit("\nI ");
    reveal_strlit("\n¤(I) ");
    assert(crate::text::witnessed(seq!['I', ' ', 'a', 'm'], " me,"@, seq![0], 0)) by { reveal_with_fuel(crate::text::witnessed, 3); }
    crate::text::lemma_witnessed_none(seq!['I', ' ', 'a', 'm'], " me,"@, seq![0], 0);
    crate::text::lemma_replace_none(seq!['I', ' ', 'a', 'm'], " me,"@, " ¤(me),"@);
    assert(crate::text::witnessed(seq!['I', ' ', 'a', 'm'], " me."@, seq![0], 0)) by { reveal_with_fuel(crate::text::witnessed, 3); }
    crate::text::lemma_witnessed_none(seq!['I', ' ', 'a', 'm'], " me."@, seq![0], 0);
    crate::text::lemma_replace_none(seq!['I', ' ', 'a', 'm'], " me."@, " ¤(me)."@);
    assert(crate::text::witnessed(seq!['I', ' ', 'a', 'm'], " Me "@, seq![0], 0)) by { reveal_with_fuel(crate::text::witnessed, 3); }
    crate::text::lemma_witnessed_none(seq!['I', ' ', 'a', 'm'], " Me "@, seq![0], 0);
    crate::text::lemma_replace_none(seq!['I', ' ', 'a', 'm'], " Me "@, " ¤(Me) "@);
    assert(crate::text::witnessed(seq!['I', ' ', 'a', 'm'], " Me,"@, seq![0], 0)) by { reveal_with_fuel(crate::text::witnessed, 3); }
    crate::text::lemma_witnessed_none(seq!['I', ' ', 'a', 'm'], " Me,"@, seq![0], 0);
    crate::text::lemma_replace_none(seq!['I', ' ', 'a', 'm'], " Me,"@, " ¤(Me),"@);
    assert(crate::text::witnessed(seq!['I', ' ', 'a', 'm'], " Me."@, seq![0], 0)) by { reveal_with_fuel(crate::text::witnessed, 3); }
    crate::text::lemma_witnessed_none(seq!['I', ' ', 'a', 'm'], " Me."@, seq![0], 0);
    crate::text::lemma_replace_none(seq!['I', ' ', 'a', 'm'], " Me."@, " ¤(Me)."@);
    assert(crate::text::witnessed(seq!['I', ' ', 'a', 'm'], "\nI "@, seq![0, 0], 0)) by { reveal_with_fuel(crate::text::witnessed, 4); }
    crate::text::lemma_witnessed_none(seq!['I', ' ', 'a', 'm'], "\nI "@, seq![0, 0], 0);
    crate::text::lemma_replace_none(seq!['I', ' ', 'a', 'm'], "\nI "@, "\n¤(I) "@);
    assert(crate::text::witnessed(seq!['I', ' ', 'a', 'm'], ". I "@, seq![0], 0)) by { reveal_with_fuel(crate::text::witnessed, 3); }
    crate::text::lemma_witnessed_none(seq!['I', ' ', 'a', 'm'], ". I "@, seq![0], 0);
    crate::text::lemma_replace_none(seq!['I', ' ', 'a', 'm'], ". I "@, ". ¤(I) "@);
}

/// What group 4 makes of the middle of phrase 13.
proof fn lemma_phrase_13_group_4()
    ensures
        phrase_group_4(seq!['I', ' ', 'a', 'm']) == seq!['I', ' ', 'a', 'm'],
{
    reveal(phrase_group_4);
    reveal_strlit(" I ");
    reveal_strlit(" I,");
    reveal_strlit(" I.");
    reveal_strlit(" ¤(i) ");
    reveal_strlit(" ¤(i),");
    reveal_strlit(" ¤(i).");
    reveal_strlit(". I,");
    reveal_strlit(". I.");
    reveal_strlit(". ¤(I),");
    reveal_strlit(". ¤(I). ");
    reveal_strlit("Cards ¤(I am) attached to");
    reveal_strlit("The card ¤(I am) attached to");
    reveal_strlit("cards ¤(I am) attached to");
    reveal_strlit("the card ¤(I am) attached to");
    assert(crate::text::witnessed(seq!['I', ' ', 'a', 'm'], ". I,"@, seq![0], 0)) by { reveal_with_fuel(crate::text::witnessed, 3); }
    crate::text::lemma_witnessed_none(seq!['I', ' ', 'a', 'm'], ". I,"@, seq![0], 0);
    crate::text::lemma_replace_none(seq!['I', ' ', 'a', 'm'], ". I,"@, ". ¤(I),"@);
    assert(crate::text::witnessed(seq!['I', ' ', 'a', 'm'], ". I."@, seq![0], 0)) by { reveal_with_fuel(crate::text::witnessed, 3); }
    crate::text::lemma_witnessed_none(seq!['I', ' ', 'a', 'm'], ". I."@, seq![0], 0);
    crate::text::lemma_replace_none(seq!['I', ' ', 'a', 'm'], ". I."@, ". ¤(I). "@);
    assert(crate::text::witnessed(seq!['I', ' ', 'a', 'm'], " I "@, seq![0, 1], 0)) by { reveal_with_fuel(crate::text::witnessed, 4); }
    crate::text::lemma_witnessed_none(seq!['I', ' ', 'a', 'm'], " I "@, seq![0, 1], 0);
    crate::text::lemma_replace_none(seq!['I', ' ', 'a', 'm'], " I "@, " ¤(i) "@);
    assert(crate::text::witnessed(seq!['I', ' ', 'a', 'm'], " I,"@, seq![0, 1], 0)) by { reveal_with_fuel(crate::text::witnessed, 4); }
    crate::text::lemma_witnessed_none(seq!['I', ' ', 'a', 'm'], " I,"@, seq![0, 1], 0);
    crate::text::lemma_replace_none(seq!['I', ' ', 'a', 'm'], " I,"@, " ¤(i),"@);
    assert(crate::text::witnessed(seq!['I', ' ', 'a', 'm'], " I."@, seq![0, 1], 0)) by { reveal_with_fuel(crate::text::witnessed, 4); }
    crate::text::lemma_witnessed_none(seq!['I', ' ', 'a', 'm'], " I."@, seq![0, 1], 0);
    crate::text::lemma_replace_none(seq!['I', ' ', 'a', 'm'], " I."@, " ¤(i)."@);
    assert(crate::text::witnessed(seq!['I', ' ', 'a', 'm'], "Cards ¤(I am) attached to"@, seq![], 0)) by { reveal_with_fuel(crate::text::witnessed, 2); }
    crate::text::lemma_witnessed_none(seq!['I', ' ', 'a', 'm'], "Cards ¤(I am) attached to"@, seq![], 0);
    crate::text::lemma_replace_none(seq!['I', ' ', 'a', 'm'], "Cards ¤(I am) attached to"@, "The card ¤(I am) attached to"@);
    assert(crate::text::witnessed(seq!['I', ' ', 'a', 'm'], "cards ¤(I am) attached to"@, seq![], 0)) by { reveal_with_fuel(crate::text::witnessed, 2); }
    crate::text::lemma_witnessed_none(seq!['I', ' ', 'a', 'm'], "cards ¤(I am) attached to"@, seq![], 0);
    crate::text::lemma_replace_none(seq!['I', ' ', 'a', 'm'], "cards ¤(I am) attached to"@, "the card ¤(I am) attached to"@);
}

/// Between digits, phrase 13 becomes what the card text makes of it.
proof fn lemma_phrase_13(x: Seq<char>, y: Seq<char>)
    requires
        all_digits(x),
        all_digits(y),
        trim(x + "I'm"@ + y) == x + "I'm"@ + y,
    ensures
        phrase_commands(x + "I'm"@ + y) == Some(x + seq!['I', ' ', 'a', 'm'] + y),
{
    reveal_strlit("I'm");
    assert("I'm"@ =~= seq!['I', '\'', 'm']);
    reveal_strlit("Card with");
    reveal_strlit("card with");
    reveal_strlit("Cards with");
    reveal_strlit("cards with");
    let m0 = seq!['I', '\'', 'm'];
    lemma_group_framed_0(x, m0, y);
    lemma_phrase_13_group_0();
    let m1 = phrase_group_0(m0);
    lemma_group_framed_1(x, m1, y);
    lemma_phrase_13_group_1();
    let m2 = phrase_group_1(m1);
    lemma_group_framed_2(x, m2, y);
    lemma_phrase_13_group_2();
    let m3 = phrase_group_2(m2);
    lemma_group_framed_3(x, m3, y);
    lemma_phrase_13_group_3();
    let m4 = phrase_group_3(m3);
    lemma_group_framed_4(x, m4, y);
    lemma_phrase_13_group_4();
    let m5 = phrase_group_4(m4);
    assert(crate::text::witnessed(seq!['I', ' ', 'a', 'm'], "Card with"@, seq![], 0)) by { reveal_with_fuel(crate::text::witnessed, 2); }
    crate::text::lemma_witnessed_none(seq!['I', ' ', 'a', 'm'], "Card with"@, seq![], 0);
    assert(digit_free("Card with"@));
    crate::text::lemma_replace_framed(x, seq!['I', ' ', 'a', 'm'], y, "Card with"@, "Card with"@);
    assert(with_marker(WithPhrase::Card) == "Card with"@);
    assert(crate::text::witnessed(seq!['I', ' ', 'a', 'm'], "card with"@, seq![], 0)) by { reveal_with_fuel(crate::text::witnessed, 2); }
    crate::text::lemma_witnessed_none(seq!['I', ' ', 'a', 'm'], "card with"@, seq![], 0);
    assert(digit_free("card with"@));
    crate::text::lemma_replace_framed(x, seq!['I', ' ', 'a', 'm'], y, "card with"@, "card with"@);
    assert(with_marker(WithPhrase::CardLower) == "card with"@);
    assert(crate::text::witnessed(seq!['I', ' ', 'a', 'm'], "Cards with"@, seq![], 0)) by { reveal_with_fuel(crate::text::witnessed, 2); }
    crate::text::lemma_witnessed_none(seq!['I', ' ', 'a', 'm'], "Cards with"@, seq![], 0);
    assert(digit_free("Cards with"@));
    crate::text::lemma_replace_framed(x, seq!['I', ' ', 'a', 'm'], y, "Cards with"@, "Cards with"@);
    assert(with_marker(WithPhrase::Cards) == "Cards with"@);
    assert(crate::text::witnessed(seq!['I', ' ', 'a', 'm'], "cards with"@, seq![], 0)) by { reveal_with_fuel(crate::text::witnessed, 2); }
    crate::text::lemma_witnessed_none(seq!['I', ' ', 'a', 'm'], "cards with"@, seq![], 0);
    assert(digit_free("cards with"@));
    crate::text::lemma_replace_framed(x, seq!['I', ' ', 'a', 'm'], y, "cards with"@, "cards with"@);
    assert(with_marker(WithPhrase::CardsLower) == "cards with"@);
}

/// What group 0 makes of the middle of phrase 14.
proof fn lemma_phrase_14_group_0()
    ensures
        phrase_group_0(seq!['.', ' ', 'I', ' ', 'a', 'm', ' ']) == seq!['.', ' ', 'I', ' ', 'a', 'm', ' '],
{
    reveal(phrase_group_0);
    reveal_strlit(" ");
    reveal_strlit("  ");
    reveal_strlit(" mana ");
    reveal_strlit(" ¤(mana) ");
    reveal_strlit("Boost");
    reveal_strlit("Experience");
    reveal_strlit("\n ");
    reveal_strlit("boost");
    reveal_strlit("experience");
    reveal_strlit("¤(Boost)");
    reveal_strlit("¤(Xp)");
    reveal_strlit("¤(boost)");
    reveal_strlit("¤(xp)");
    assert(crate::text::witnessed(seq!['.', ' ', 'I', ' ', 'a', 'm', ' '], "\n "@, seq![0, 0, 0, 0, 0, 0], 0)) by { reveal_with_fuel(crate::text::witnessed, 8); }
    crate::text::lemma_witnessed_none(seq!['.', ' ', 'I', ' ', 'a', 'm', ' '], "\n "@, seq![0, 0, 0, 0, 0, 0], 0);
    crate::text::lemma_replace_none(seq!['.', ' ', 'I', ' ', 'a', 'm', ' '], "\n "@, " "@);
    assert(crate::text::witnessed(seq!['.', ' ', 'I', ' ', 'a', 'm', ' '], "  "@, seq![0, 1, 0, 1, 0, 0], 0)) by { reveal_with_fuel(crate::text::witnessed, 8); }
    crate::text::lemma_witnessed_none(seq!['.', ' ', 'I', ' ', 'a', 'm', ' '], "  "@, seq![0, 1, 0, 1, 0, 0], 0);
    crate::text::lemma_replace_none(seq!['.', ' ', 'I', ' ', 'a', 'm', ' '], "  "@, " "@);
    assert(crate::text::witnessed(seq!['.', ' ', 'I', ' ', 'a', 'm', ' '], "Boost"@, seq![0, 0, 0], 0)) by { reveal_with_fuel(crate::text::witnessed, 5); }
    crate::text::lemma_witnessed_none(seq!['.', ' ', 'I', ' ', 'a', 'm', ' '], "Boost"@, seq![0, 0, 0], 0);
    crate::text::lemma_replace_none(seq!['.', ' ', 'I', ' ', 'a', 'm', ' '], "Boost"@, "¤(Boost)"@);
    assert(crate::text::witnessed(seq!['.', ' ', 'I', ' ', 'a', 'm', ' '], "boost"@, seq![0, 0, 0], 0)) by { reveal_with_fuel(crate::text::witnessed, 5); }
    crate::text::lemma_witnessed_none(seq!['.', ' ', 'I', ' ', 'a', 'm', ' '], "boost"@, seq![0, 0, 0], 0);
    crate::text::lemma_replace_none(seq!['.', ' ', 'I', ' ', 'a', 'm', ' '], "boost"@, "¤(boost)"@);
    assert(crate::text::witnessed(seq!['.', ' ', 'I', ' ', 'a', 'm', ' '], "experience"@, seq![], 0)) by { reveal_with_fuel(crate::text::witnessed, 2); }
    crate::text::lemma_witnessed_none(seq!['.', ' ', 'I', ' ', 'a', 'm', ' '], "experience"@, seq![], 0);
    crate::text::lemma_replace_none(seq!['.', ' ', 'I', ' ', 'a', 'm', ' '], "experience"@, "¤(xp)"@);
    assert(crate::text::witnessed(seq!['.', ' ', 'I', ' ', 'a', 'm', ' '], "Experience"@, seq![], 0)) by { reveal_with_fuel(crate::text::witnessed, 2); }
    crate::text::lemma_witnessed_none(seq!['.', ' ', 'I', ' ', 'a', 'm', ' '], "Experience"@, seq![], 0);
    crate::text::lemma_replace_none(seq!['.', ' ', 'I', ' ', 'a', 'm', ' '], "Experience"@, "¤(Xp)"@);
    assert(crate::text::witnessed(seq!['.', ' ', 'I', ' ', 'a', 'm', ' '], " mana "@, seq![0, 1], 0)) by { reveal_with_fuel(crate::text::witnessed, 4); }
    crate::text::lemma_witnessed_none(seq!['.', ' ', 'I', ' ', 'a', 'm', ' '], " mana "@, seq![0, 1], 0);
    crate::text::lemma_replace_none(seq!['.', ' ', 'I', ' ', 'a', 'm', ' '], " mana "@, " ¤(mana) "@);
}

/// What group 1 makes of the middle of phrase 14.
proof fn lemma_phrase_14_group_1()
    ensures
        phrase_group_1(seq!['.', ' ', 'I', ' ', 'a', 'm', ' ']) == seq!['.', ' ', 'I', ' ', 'a', 'm', ' '],
{
    reveal(phrase_group_1);
    reveal_strlit(" Mana ");
    reveal_strlit(" Mana,");
    reveal_strlit(" Mana.");
    reveal_strlit(" mana,");
    reveal_strlit(" mana.");
    reveal_strlit(" ¤(Mana) ");
    reveal_strlit(" ¤(Mana),");
    reveal_strlit(" ¤(Mana).");
    reveal_strlit(" ¤(mana),");
    reveal_strlit(" ¤(mana).");
    reveal_strlit("I am");
    reveal_strlit("I'm");
    reveal_strlit("I’m");
    assert(crate::text::witnessed(seq!['.', ' ', 'I', ' ', 'a', 'm', ' '], " mana."@, seq![0, 1], 0)) by { reveal_with_fuel(crate::text::witnessed, 4); }
    crate::text::lemma_witnessed_none(seq!['.', ' ', 'I', ' ', 'a', 'm', ' '], " mana."@, seq![0, 1], 0);
    crate::text::lemma_replace_none(seq!['.', ' ', 'I', ' ', 'a', 'm', ' '], " mana."@, " ¤(mana)."@);
    assert(crate::text::witnessed(seq!['.', ' ', 'I', ' ', 'a', 'm', ' '], " mana,"@, seq![0, 1], 0)) by { reveal_with_fuel(crate::text::witnessed, 4); }
    crate::text::lemma_witnessed_none(seq!['.', ' ', 'I', ' ', 'a', 'm', ' '], " mana,"@, seq![0, 1], 0);
    crate::text::lemma_replace_none(seq!['.', ' ', 'I', ' ', 'a', 'm', ' '], " mana,"@, " ¤(mana),"@);
    assert(crate::text::witnessed(seq!['.', ' ', 'I', ' ', 'a', 'm', ' '], " Mana "@, seq![0, 1], 0)) by { reveal_with_fuel(crate::text::witnessed, 4); }
    crate::text::lemma_witnessed_none(seq!['.', ' ', 'I', ' ', 'a', 'm', ' '], " Mana "@, seq![0, 1], 0);
    crate::text::lemma_replace_none(seq!['.', ' ', 'I', ' ', 'a', 'm', ' '], " Mana "@, " ¤(Mana) "@);
    assert(crate::text::witnessed(seq!['.', ' ', 'I', ' ', 'a', 'm', ' '], " Mana."@, seq![0, 1], 0)) by { reveal_with_fuel(crate::text::witnessed, 4); }
    crate::text::lemma_witnessed_none(seq!['.', ' ', 'I', ' ', 'a', 'm', ' '], " Mana."@, seq![0, 1], 0);
    crate::text::lemma_replace_none(seq!['.', ' ', 'I', ' ', 'a', 'm', ' '], " Mana."@, " ¤(Mana)."@);
    assert(crate::text::witnessed(seq!['.', ' ', 'I', ' ', 'a', 'm', ' '], " Mana,"@, seq![0, 1], 0)) by { reveal_with_fuel(crate::text::witnessed, 4); }
    crate::text::lemma_witnessed_none(seq!['.', ' ', 'I', ' ', 'a', 'm', ' '], " Mana,"@, seq![0, 1], 0);
    crate::text::lemma_replace_none(seq!['.', ' ', 'I', ' ', 'a', 'm', ' '], " Mana,"@, " ¤(Mana),"@);
    assert(crate::text::witnessed(seq!['.', ' ', 'I', ' ', 'a', 'm', ' '], "I’m"@, seq![0, 0, 1, 0, 0], 0)) by { reveal_with_fuel(crate::text::witnessed, 7); }
    crate::text::lemma_witnessed_none(seq!['.', ' ', 'I', ' ', 'a', 'm', ' '], "I’m"@, seq![0, 0, 1, 0, 0], 0);
    crate::text::lemma_replace_none(seq!['.', ' ', 'I', ' ', 'a', 'm', ' '], "I’m"@, "I am"@);
    assert(crate::text::witnessed(seq!['.', ' ', 'I', ' ', 'a', 'm', ' '], "I'm"@, seq![0, 0, 1, 0, 0], 0)) by { reveal_with_fuel(crate::text::witnessed, 7); }
    crate::text::lemma_witnessed_none(seq!['.', ' ', 'I', ' ', 'a', 'm', ' '], "I'm"@, seq![0, 0, 1, 0, 0], 0);
    crate::text::lemma_replace_none(seq!['.', ' ', 'I', ' ', 'a', 'm', ' '], "I'm"@, "I am"@);
}

/// What group 2 makes of the middle of phrase 14.
proof fn lemma_phrase_14_group_2()
    ensures
        phrase_group_2(seq!['.', ' ', 'I', ' ', 'a', 'm', ' ']) == seq!['.', ' ', '\u{a4}', '(', 'I', ' ', 'a', 'm', ')', ' '],
{
    reveal(phrase_group_2);
    reveal_strlit(" I am ");
    reveal_strlit(" I have");
    reveal_strlit(" me ");
    reveal_strlit(" my ");
    reveal_strlit(" ¤(I have)");
    reveal_strlit(" ¤(i am) ");
    reveal_strlit(" ¤(i have)");
    reveal_strlit(" ¤(me) ");
    reveal_strlit(" ¤(my) ");
    reveal_strlit(". I am ");
    reveal_strlit(". I have");
    reveal_strlit(". My ");
    reveal_strlit(". ¤(I am) ");
    reveal_strlit(". ¤(My) ");
    assert(crate::text::witnessed_until(seq!['.', ' ', 'I', ' ', 'a', 'm', ' '], ". I am "@, seq![], 0, 0)) by { reveal_with_fuel(crate::text::witnessed_until, 2); }
    assert(crate::text::witnessed(seq!['.', ' ', 'I', ' ', 'a', 'm', ' '], ". I am "@, seq![0, 0, 0, 0, 0, 0, 0], 7)) by { reveal_with_fuel(crate::text::witnessed, 9); }
    assert(seq!['.', ' ', 'I', ' ', 'a', 'm', ' '].subrange(0, 7) =~= ". I am "@);
    crate::text::lemma_replace_once(seq!['.', ' ', 'I', ' ', 'a', 'm', ' '], ". I am "@, ". ¤(I am) "@, 0, seq![], seq![0, 0, 0, 0, 0, 0, 0]);
    assert(seq!['.', ' ', 'I', ' ', 'a', 'm', ' '].subrange(0, 0) + ". ¤(I am) "@ + seq!['.', ' ', 'I', ' ', 'a', 'm', ' '].subrange(7, 7) =~= seq!['.', ' ', '\u{a4}', '(', 'I', ' ', 'a', 'm', ')', ' ']);
    assert(crate::text::witnessed(seq!['.', ' ', '\u{a4}', '(', 'I', ' ', 'a', 'm', ')', ' '], " I am "@, seq![0, 1, 0, 0, 0], 0)) by { reveal_with_fuel(crate::text::witnessed, 7); }
    crate::text::lemma_witnessed_none(seq!['.', ' ', '\u{a4}', '(', 'I', ' ', 'a', 'm', ')', ' '], " I am "@, seq![0, 1, 0, 0, 0], 0);
    crate::text::lemma_replace_none(seq!['.', ' ', '\u{a4}', '(', 'I', ' ', 'a', 'm', ')', ' '], " I am "@, " ¤(i am) "@);
    assert(crate::text::witnessed(seq!['.', ' ', '\u{a4}', '(', 'I', ' ', 'a', 'm', ')', ' '], " I have"@, seq![0, 1, 0, 0], 0)) by { reveal_with_fuel(crate::text::witnessed, 6); }
    crate::text::lemma_witnessed_none(seq!['.', ' ', '\u{a4}', '(', 'I', ' ', 'a', 'm', ')', ' '], " I have"@, seq![0, 1, 0, 0], 0);
    crate::text::lemma_replace_none(seq!['.', ' ', '\u{a4}', '(', 'I', ' ', 'a', 'm', ')', ' '], " I have"@, " ¤(i have)"@);
    assert(crate::text::witnessed(seq!['.', ' ', '\u{a4}', '(', 'I', ' ', 'a', 'm', ')', ' '], ". I have"@, seq![2, 0, 0], 0)) by { reveal_with_fuel(crate::text::witnessed, 5); }
    crate::text::lemma_witnessed_none(seq!['.', ' ', '\u{a4}', '(', 'I', ' ', 'a', 'm', ')', ' '], ". I have"@, seq![2, 0, 0], 0);
    crate::text::lemma_replace_none(seq!['.', ' ', '\u{a4}', '(', 'I', ' ', 'a', 'm', ')', ' '], ". I have"@, " ¤(I have)"@);
    assert(crate::text::witnessed(seq!['.', ' ', '\u{a4}', '(', 'I', ' ', 'a', 'm', ')', ' '], " my "@, seq![0, 1, 0, 0, 0, 1, 0], 0)) by { reveal_with_fuel(crate::text::witnessed, 9); }
    crate::text::lemma_witnessed_none(seq!['.', ' ', '\u{a4}', '(', 'I', ' ', 'a', 'm', ')', ' '], " my "@, seq![0, 1, 0, 0, 0, 1, 0], 0);
    crate::text::lemma_replace_none(seq!['.', ' ', '\u{a4}', '(', 'I', ' ', 'a', 'm', ')', ' '], " my "@, " ¤(my) "@);
    assert(crate::text::witnessed(seq!['.', ' ', '\u{a4}', '(', 'I', ' ', 'a', 'm', ')', ' '], ". My "@, seq![2, 0, 0, 0, 0, 0], 0)) by { reveal_with_fuel(crate::text::witnessed, 8); }
    crate::text::lemma_witnessed_none(seq!['.', ' ', '\u{a4}', '(', 'I', ' ', 'a', 'm', ')', ' '], ". My "@, seq![2, 0, 0, 0, 0, 0], 0);
    crate::text::lemma_replace_none(seq!['.', ' ', '\u{a4}', '(', 'I', ' ', 'a', 'm', ')', ' '], ". My "@, ". ¤(My) "@);
    assert(crate::text::witnessed(seq!['.', ' ', '\u{a4}', '(', 'I', ' ', 'a', 'm', ')', ' '], " me "@, seq![0, 1, 0, 0, 0, 1, 0], 0)) by { reveal_with_fuel(crate::text::witnessed, 9); }
    crate::text::lemma_witnessed_none(seq!['.', ' ', '\u{a4}', '(', 'I', ' ', 'a', 'm', ')', ' '], " me "@, seq![0, 1, 0, 0, 0, 1, 0], 0);
    crate::text::lemma_replace_none(seq!['.', ' ', '\u{a4}', '(', 'I', ' ', 'a', 'm', ')', ' '], " me "@, " ¤(me) "@);
}

/// What group 3 makes of the middle of phrase 14.
proof fn lemma_phrase_14_group_3()
    ensures
        phrase_group_3(seq!['.', ' ', '\u{a4}', '(', 'I', ' ', 'a', 'm', ')', ' ']) == seq!['.', ' ', '\u{a4}', '(', 'I', ' ', 'a', 'm', ')', ' '],
{
    reveal(phrase_group_3);
    reveal_strlit(" Me ");
    reveal_strlit(" Me,");
    reveal_strlit(" Me.");
    reveal_strlit(" me,");
    reveal_strlit(" me.");
    reveal_strlit(" ¤(Me) ");
    reveal_strlit(" ¤(Me),");
    reveal_strlit(" ¤(Me).");
    reveal_strlit(" ¤(me),");
    reveal_strlit(" ¤(me).");
    reveal_strlit(". I ");
    reveal_strlit(". ¤(I) ");
    reveal_strlit("\nI ");
    reveal_strlit("\n¤(I) ");
    assert(crate::text::witnessed(seq!['.', ' ', '\u{a4}', '(', 'I', ' ', 'a', 'm', ')', ' '], " me,"@, seq![0, 1, 0, 0, 0, 1, 0], 0)) by { reveal_with_fuel(crate::text::witnessed, 9); }
    crate::text::lemma_witnessed_none(seq!['.', ' ', '\u{a4}', '(', 'I', ' ', 'a', 'm', ')', ' '], " me,"@, seq![0, 1, 0, 0, 0, 1, 0], 0);
    crate::text::lemma_replace_none(seq!['.', ' ', '\u{a4}', '(', 'I', ' ', 'a', 'm', ')', ' '], " me,"@, " ¤(me),"@);
    assert(crate::text::witnessed(seq!['.', ' ', '\u{a4}', '(', 'I', ' ', 'a', 'm', ')', ' '], " me."@, seq![0, 1, 0, 0, 0, 1, 0], 0)) by { reveal_with_fuel(crate::text::witnessed, 9); }
    crate::text::lemma_witnessed_none(seq!['.', ' ', '\u{a4}', '(', 'I', ' ', 'a', 'm', ')', ' '], " me."@, seq![0, 1, 0, 0, 0, 1, 0], 0);
    crate::text::lemma_replace_none(seq!['.', ' ', '\u{a4}', '(', 'I', ' ', 'a', 'm', ')', ' '], " me."@, " ¤(me)."@);
    assert(crate::text::witnessed(seq!['.', ' ', '\u{a4}', '(', 'I', ' ', 'a', 'm', ')', ' '], " Me "@, seq![0, 1, 0, 0, 0, 1, 0], 0)) by { reveal_with_fuel(crate::text::witnessed, 9); }
    crate::text::lemma_witnessed_none(seq!['.', ' ', '\u{a4}', '(', 'I', ' ', 'a', 'm', ')', ' '], " Me "@, seq![0, 1, 0, 0, 0, 1, 0], 0);
    crate::text::lemma_replace_none(seq!['.', ' ', '\u{a4}', '(', 'I', ' ', 'a', 'm', ')', ' '], " Me "@, " ¤(Me) "@);
    assert(crate::text::witnessed(seq!['.', ' ', '\u{a4}', '(', 'I', ' ', 'a', 'm', ')', ' '], " Me,"@, seq![0, 1, 0, 0, 0, 1, 0], 0)) by { reveal_with_fuel(crate::text::witnessed, 9); }
    crate::text::lemma_witnessed_none(seq!['.', ' ', '\u{a4}', '(', 'I', ' ', 'a', 'm', ')', ' '], " Me,"@, seq![0, 1, 0, 0, 0, 1, 0], 0);
    crate::text::lemma_replace_none(seq!['.', ' ', '\u{a4}', '(', 'I', ' ', 'a', 'm', ')', ' '], " Me,"@, " ¤(Me),"@);
    assert(crate::text::witnessed(seq!['.', ' ', '\u{a4}', '(', 'I', ' ', 'a', 'm', ')', ' '], " Me."@, seq![0, 1, 0, 0, 0, 1, 0], 0)) by { reveal_with_fuel(crate::text::witnessed, 9); }
    crate::text::lemma_witnessed_none(seq!['.', ' ', '\u{a4}', '(', 'I', ' ', 'a', 'm', ')', ' '], " Me."@, seq![0, 1, 0, 0, 0, 1, 0], 0);
    crate::text::lemma_replace_none(seq!['.', ' ', '\u{a4}', '(', 'I', ' ', 'a', 'm', ')', ' '], " Me."@, " ¤(Me)."@);
    assert(crate::text::witnessed(seq!['.', ' ', '\u{a4}', '(', 'I', ' ', 'a', 'm', ')', ' '], "\nI "@, seq![0, 0, 0, 0, 0, 0, 0, 0], 0)) by { reveal_with_fuel(crate::text::witnessed, 10); }
    crate::text::lemma_witnessed_none(seq!['.', ' ', '\u{a4}', '(', 'I', ' ', 'a', 'm', ')', ' '], "\nI "@, seq![0, 0, 0, 0, 0, 0, 0, 0], 0);
    crate::text::lemma_replace_none(seq!['.', ' ', '\u{a4}', '(', 'I', ' ', 'a', 'm', ')', ' '], "\nI "@, "\n¤(I) "@);
    assert(crate::text::witnessed(seq!['.', ' ', '\u{a4}', '(', 'I', ' ', 'a', 'm', ')', ' '], ". I "@, seq![2, 0, 0, 0, 0, 0, 0], 0)) by { reveal_with_fuel(crate::text::witnessed, 9); }
    crate::text::lemma_witnessed_none(seq!['.', ' ', '\u{a4}', '(', 'I', ' ', 'a', 'm', ')', ' '], ". I "@, seq![2, 0, 0, 0, 0, 0, 0], 0);
    crate::text::lemma_replace_none(seq!['.', ' ', '\u{a4}', '(', 'I', ' ', 'a', 'm', ')', ' '], ". I "@, ". ¤(I) "@);
}

/// What group 4 makes of the middle of phrase 14.
proof fn lemma_phrase_14_group_4()
    ensures
        phrase_group_4(seq!['.', ' ', '\u{a4}', '(', 'I', ' ', 'a', 'm', ')', ' ']) == seq!['.', ' ', '\u{a4}', '(', 'I', ' ', 'a', 'm', ')', ' '],
{
    reveal(phrase_group_4);
    reveal_strlit(" I ");
    reveal_strlit(" I,");
    reveal_strlit(" I.");
    reveal_strlit(" ¤(i) ");
    reveal_strlit(" ¤(i),");
    reveal_strlit(" ¤(i).");
    reveal_strlit(". I,");
    reveal_strlit(". I.");
    reveal_strlit(". ¤(I),");
    reveal_strlit(". ¤(I). ");
    reveal_strlit("Cards ¤(I am) attached to");
    reveal_strlit("The card ¤(I am) attached to");
    reveal_strlit("cards ¤(I am) attached to");
    reveal_strlit("the card ¤(I am) attached to");
    assert(crate::text::witnessed(seq!['.', ' ', '\u{a4}', '(', 'I', ' ', 'a', 'm', ')', ' '], ". I,"@, seq![2, 0, 0, 0, 0, 0, 0], 0)) by { reveal_with_fuel(crate::text::witnessed, 9); }
    crate::text::lemma_witnessed_none(seq!['.', ' ', '\u{a4}', '(', 'I', ' ', 'a', 'm', ')', ' '], ". I,"@, seq![2, 0, 0, 0, 0, 0, 0], 0);
    crate::text::lemma_replace_none(seq!['.', ' ', '\u{a4}', '(', 'I', ' ', 'a', 'm', ')', ' '], ". I,"@, ". ¤(I),"@);
    assert(crate::text::witnessed(seq!['.', ' ', '\u{a4}', '(', 'I', ' ', 'a', 'm', ')', ' '], ". I."@, seq![2, 0, 0, 0, 0, 0, 0], 0)) by { reveal_with_fuel(crate::text::witnessed, 9); }
    crate::text::lemma_witnessed_none(seq!['.', ' ', '\u{a4}', '(', 'I', ' ', 'a', 'm', ')', ' '], ". I."@, seq![2, 0, 0, 0, 0, 0, 0], 0);
    crate::text::lemma_replace_none(seq!['.', ' ', '\u{a4}', '(', 'I', ' ', 'a', 'm', ')', ' '], ". I."@, ". ¤(I). "@);
    assert(crate::text::witnessed(seq!['.', ' ', '\u{a4}', '(', 'I', ' ', 'a', 'm', ')', ' '], " I "@, seq![0, 1, 0, 0, 0, 1, 0, 0], 0)) by { reveal_with_fuel(crate::text::witnessed, 10); }
    crate::text::lemma_witnessed_none(seq!['.', ' ', '\u{a4}', '(', 'I', ' ', 'a', 'm', ')', ' '], " I "@, seq![0, 1, 0, 0, 0, 1, 0, 0], 0);
    crate::text::lemma_replace_none(seq!['.', ' ', '\u{a4}', '(', 'I', ' ', 'a', 'm', ')', ' '], " I "@, " ¤(i) "@);
    assert(crate::text::witnessed(seq!['.', ' ', '\u{a4}', '(', 'I', ' ', 'a', 'm', ')', ' '], " I,"@, seq![0, 1, 0, 0, 0, 1, 0, 0], 0)) by { reveal_with_fuel(crate::text::witnessed, 10); }
    crate::text::lemma_witnessed_none(seq!['.', ' ', '\u{a4}', '(', 'I', ' ', 'a', 'm', ')', ' '], " I,"@, seq![0, 1, 0, 0, 0, 1, 0, 0], 0);
    crate::text::lemma_replace_none(seq!['.', ' ', '\u{a4}', '(', 'I', ' ', 'a', 'm', ')', ' '], " I,"@, " ¤(i),"@);
    assert(crate::text::witnessed(seq!['.', ' ', '\u{a4}', '(', 'I', ' ', 'a', 'm', ')', ' '], " I."@, seq![0, 1, 0, 0, 0, 1, 0, 0], 0)) by { reveal_with_fuel(crate::text::witnessed, 10); }
    crate::text::lemma_witnessed_none(seq!['.', ' ', '\u{a4}', '(', 'I', ' ', 'a', 'm', ')', ' '], " I."@, seq![0, 1, 0, 0, 0, 1, 0, 0], 0);
    crate::text::lemma_replace_none(seq!['.', ' ', '\u{a4}', '(', 'I', ' ', 'a', 'm', ')', ' '], " I."@, " ¤(i)."@);
    assert(crate::text::witnessed(seq!['.', ' ', '\u{a4}', '(', 'I', ' ', 'a', 'm', ')', ' '], "Cards ¤(I am) attached to"@, seq![], 0)) by { reveal_with_fuel(crate::text::witnessed, 2); }
    crate::text::lemma_witnessed_none(seq!['.', ' ', '\u{a4}', '(', 'I', ' ', 'a', 'm', ')', ' '], "Cards ¤(I am) attached to"@, seq![], 0);
    crate::text::lemma_replace_none(seq!['.', ' ', '\u{a4}', '(', 'I', ' ', 'a', 'm', ')', ' '], "Cards ¤(I am) attached to"@, "The card ¤(I am) attached to"@);
    assert(crate::text::witnessed(seq!['.', ' ', '\u{a4}', '(', 'I', ' ', 'a', 'm', ')', ' '], "cards ¤(I am) attached to"@, seq![], 0)) by { reveal_with_fuel(crate::text::witnessed, 2); }
    crate::text::lemma_witnessed_none(seq!['.', ' ', '\u{a4}', '(', 'I', ' ', 'a', 'm', ')', ' '], "cards ¤(I am) attached to"@, seq![], 0);
    crate::text::lemma_replace_none(seq!['.', ' ', '\u{a4}', '(', 'I', ' ', 'a', 'm', ')', ' '], "cards ¤(I am) attached to"@, "the card ¤(I am) attached to"@);
}

/// Between digits, phrase 14 becomes what the card text makes of it.
proof fn lemma_phrase_14(x: Seq<char>, y: Seq<char>)
    requires
        all_digits(x),
        all_digits(y),
        trim(x + ". I am "@ + y) == x + ". I am "@ + y,
    ensures
        phrase_commands(x + ". I am "@ + y) == Some(x + seq!['.', ' ', '\u{a4}', '(', 'I', ' ', 'a', 'm', ')', ' '] + y),
{
    reveal_strlit(". I am ");
    assert(". I am "@ =~= seq!['.', ' ', 'I', ' ', 'a', 'm', ' ']);
    reveal_strlit("Card with");
    reveal_strlit("card with");
    reveal_strlit("Cards with");
    reveal_strlit("cards with");
    let m0 = seq!['.', ' ', 'I', ' ', 'a', 'm', ' '];
    lemma_group_framed_0(x, m0, y);
    lemma_phrase_14_group_0();
    let m1 = phrase_group_0(m0);
    lemma_group_framed_1(x, m1, y);
    lemma_phrase_14_group_1();
    let m2 = phrase_group_1(m1);
    lemma_group_framed_2(x, m2, y);
    lemma_phrase_14_group_2();
    let m3 = phrase_group_2(m2);
    lemma_group_framed_3(x, m3, y);
    lemma_phrase_14_group_3();
    let m4 = phrase_group_3(m3);
    lemma_group_framed_4(x, m4, y);
    lemma_phrase_14_group_4();
    let m5 = phrase_group_4(m4);
    assert(crate::text::witnessed(seq!['.', ' ', '\u{a4}', '(', 'I', ' ', 'a', 'm', ')', ' '], "Card with"@, seq![0, 0], 0)) by { reveal_with_fuel(crate::text::witnessed, 4); }
    crate::text::lemma_witnessed_none(seq!['.', ' ', '\u{a4}', '(', 'I', ' ', 'a', 'm', ')', ' '], "Card with"@, seq![0, 0], 0);
    assert(digit_free("Card with"@));
    crate::text::lemma_replace_framed(x, seq!['.', ' ', '\u{a4}', '(', 'I', ' ', 'a', 'm', ')', ' '], y, "Card with"@, "Card with"@);
    assert(with_marker(WithPhrase::Card) == "Card with"@);
    assert(crate::text::witnessed(seq!['.', ' ', '\u{a4}', '(', 'I', ' ', 'a', 'm', ')', ' '], "card with"@, seq![0, 0], 0)) by { reveal_with_fuel(crate::text::witnessed, 4); }
    crate::text::lemma_witnessed_none(seq!['.', ' ', '\u{a4}', '(', 'I', ' ', 'a', 'm', ')', ' '], "card with"@, seq![0, 0], 0);
    assert(digit_free("card with"@));
    crate::text::lemma_replace_framed(x, seq!['.', ' ', '\u{a4}', '(', 'I', ' ', 'a', 'm', ')', ' '], y, "card with"@, "card with"@);
    assert(with_marker(WithPhrase::CardLower) == "card with"@);
    assert(crate::text::witnessed(seq!['.', ' ', '\u{a4}', '(', 'I', ' ', 'a', 'm', ')', ' '], "Cards with"@, seq![0], 0)) by { reveal_with_fuel(crate::text::witnessed, 3); }
    crate::text::lemma_witnessed_none(seq!['.', ' ', '\u{a4}', '(', 'I', ' ', 'a', 'm', ')', ' '], "Cards with"@, seq![0], 0);
    assert(digit_free("Cards with"@));
    crate::text::lemma_replace_framed(x, seq!['.', ' ', '\u{a4}', '(', 'I', ' ', 'a', 'm', ')', ' '], y, "Cards with"@, "Cards with"@);
    assert(with_marker(WithPhrase::Cards) == "Cards with"@);
    assert(crate::text::witnessed(seq!['.', ' ', '\u{a4}', '(', 'I', ' ', 'a', 'm', ')', ' '], "cards with"@, seq![0], 0)) by { reveal_with_fuel(crate::text::witnessed, 3); }
    crate::text::lemma_witnessed_none(seq!['.', ' ', '\u{a4}', '(', 'I', ' ', 'a', 'm', ')', ' '], "cards with"@, seq![0], 0);
    assert(digit_free("cards with"@));
    crate::text::lemma_replace_framed(x, seq!['.', ' ', '\u{a4}', '(', 'I', ' ', 'a', 'm', ')', ' '], y, "cards with"@, "cards with"@);
    assert(with_marker(WithPhrase::CardsLower) == "cards with"@);
}

/// What group 0 makes of the middle of phrase 15.
proof fn lemma_phrase_15_group_0()
    ensures
        phrase_group_0(seq![' ', 'I', ' ', 'a', 'm', ' ']) == seq![' ', 'I', ' ', 'a', 'm', ' '],
{
    reveal(phrase_group_0);
    reveal_strlit(" ");
    reveal_strlit("  ");
    reveal_strlit(" mana ");
    reveal_strlit(" ¤(mana) ");
    reveal_strlit("Boost");
    reveal_strlit("Experience");
    reveal_strlit("\n ");
    reveal_strlit("boost");
    reveal_strlit("experience");
    reveal_strlit("¤(Boost)");
    reveal_strlit("¤(Xp)");
    reveal_strlit("¤(boost)");
    reveal_strlit("¤(xp)");
    assert(crate::text::witnessed(seq![' ', 'I', ' ', 'a', 'm', ' '], "\n "@, seq![0, 0, 0, 0, 0], 0)) by { reveal_with_fuel(crate::text::witnessed, 7); }
    crate::text::lemma_witnessed_none(seq![' ', 'I', ' ', 'a', 'm', ' '], "\n "@, seq![0, 0, 0, 0, 0], 0);
    crate::text::lemma_replace_none(seq![' ', 'I', ' ', 'a', 'm', ' '], "\n "@, " "@);
    assert(crate::text::witnessed(seq![' ', 'I', ' ', 'a', 'm', ' '], "  "@, seq![1, 0, 1, 0, 0], 0)) by { reveal_with_fuel(crate::text::witnessed, 7); }
    crate::text::lemma_witnessed_none(seq![' ', 'I', ' ', 'a', 'm', ' '], "  "@, seq![1, 0, 1, 0, 0], 0);
    crate::text::lemma_replace_none(seq![' ', 'I', ' ', 'a', 'm', ' '], "  "@, " "@);
    assert(crate::text::witnessed(seq![' ', 'I', ' ', 'a', 'm', ' '], "Boost"@, seq![0, 0], 0)) by { reveal_with_fuel(crate::text::witnessed, 4); }
    crate::text::lemma_witnessed_none(seq![' ', 'I', ' ', 'a', 'm', ' '], "Boost"@, seq![0, 0], 0);
    crate::text::lemma_replace_none(seq![' ', 'I', ' ', 'a', 'm', ' '], "Boost"@, "¤(Boost)"@);
    assert(crate::text::witnessed(seq![' ', 'I', ' ', 'a', 'm', ' '], "boost"@, seq![0, 0], 0)) by { reveal_with_fuel(crate::text::witnessed, 4); }
    crate::text::lemma_witnessed_none(seq![' ', 'I', ' ', 'a', 'm', ' '], "boost"@, seq![0, 0], 0);
    crate::text::lemma_replace_none(seq![' ', 'I', ' ', 'a', 'm', ' '], "boost"@, "¤(boost)"@);
    assert(crate::text::witnessed(seq![' ', 'I', ' ', 'a', 'm', ' '], "experience"@, seq![], 0)) by { reveal_with_fuel(crate::text::witnessed, 2); }
    crate::text::lemma_witnessed_none(seq![' ', 'I', ' ', 'a', 'm', ' '], "experience"@, seq![], 0);
    crate::text::lemma_replace_none(seq![' ', 'I', ' ', 'a', 'm', ' '], "experience"@, "¤(xp)"@);
    assert(crate::text::witnessed(seq![' ', 'I', ' ', 'a', 'm', ' '], "Experience"@, seq![], 0)) by { reveal_with_fuel(crate::text::witnessed, 2); }
    crate::text::lemma_witnessed_none(seq![' ', 'I', ' ', 'a', 'm', ' '], "Experience"@, seq![], 0);
    crate::text::lemma_replace_none(seq![' ', 'I', ' ', 'a', 'm', ' '], "Experience"@, "¤(Xp)"@);
    assert(crate::text::witnessed(seq![' ', 'I', ' ', 'a', 'm', ' '], " mana "@, seq![1], 0)) by { reveal_with_fuel(crate::text::witnessed, 3); }
    crate::text::lemma_witnessed_none(seq![' ', 'I', ' ', 'a', 'm', ' '], " mana "@, seq![1], 0);
    crate::text::lemma_replace_none(seq![' ', 'I', ' ', 'a', 'm', ' '], " mana "@, " ¤(mana) "@);
}

/// What group 1 makes of the middle of phrase 15.
proof fn lemma_phrase_15_group_1()
    ensures
        phrase_group_1(seq![' ', 'I', ' ', 'a', 'm', ' ']) == seq![' ', 'I', ' ', 'a', 'm', ' '],
{
    reveal(phrase_group_1);
    reveal_strlit(" Mana ");
    reveal_strlit(" Mana,");
    reveal_strlit(" Mana.");
    reveal_strlit(" mana,");
    reveal_strlit(" mana.");
    reveal_strlit(" ¤(Mana) ");
    reveal_strlit(" ¤(Mana),");
    reveal_strlit(" ¤(Mana).");
    reveal_strlit(" ¤(mana),");
    reveal_strlit(" ¤(mana).");
    reveal_strlit("I am");
    reveal_strlit("I'm");
    reveal_strlit("I’m");
    assert(crate::text::witnessed(seq![' ', 'I', ' ', 'a', 'm', ' '], " mana."@, seq![1], 0)) by { reveal_with_fuel(crate::text::witnessed, 3); }
    crate::text::lemma_witnessed_none(seq![' ', 'I', ' ', 'a', 'm', ' '], " mana."@, seq![1], 0);
    crate::text::lemma_replace_none(seq![' ', 'I', ' ', 'a', 'm', ' '], " mana."@, " ¤(mana)."@);
    assert(crate::text::witnessed(seq![' ', 'I', ' ', 'a', 'm', ' '], " mana,"@, seq![1], 0)) by { reveal_with_fuel(crate::text::witnessed, 3); }
    crate::text::lemma_witnessed_none(seq![' ', 'I', ' ', 'a', 'm', ' '], " mana,"@, seq![1], 0);
    crate::text::lemma_replace_none(seq![' ', 'I', ' ', 'a', 'm', ' '], " mana,"@, " ¤(mana),"@);
    assert(crate::text::witnessed(seq![' ', 'I', ' ', 'a', 'm', ' '], " Mana "@, seq![1], 0)) by { reveal_with_fuel(crate::text::witnessed, 3); }
    crate::text::lemma_witnessed_none(seq![' ', 'I', ' ', 'a', 'm', ' '], " Mana "@, seq![1], 0);
    crate::text::lemma_replace_none(seq![' ', 'I', ' ', 'a', 'm', ' '], " Mana "@, " ¤(Mana) "@);
    assert(crate::text::witnessed(seq![' ', 'I', ' ', 'a', 'm', ' '], " Mana."@, seq![1], 0)) by { reveal_with_fuel(crate::text::witnessed, 3); }
    crate::text::lemma_witnessed_none(seq![' ', 'I', ' ', 'a', 'm', ' '], " Mana."@, seq![1], 0);
    crate::text::lemma_replace_none(seq![' ', 'I', ' ', 'a', 'm', ' '], " Mana."@, " ¤(Mana)."@);
    assert(crate::text::witnessed(seq![' ', 'I', ' ', 'a', 'm', ' '], " Mana,"@, seq![1], 0)) by { reveal_with_fuel(crate::text::witnessed, 3); }
    crate::text::lemma_witnessed_none(seq![' ', 'I', ' ', 'a', 'm', ' '], " Mana,"@, seq![1], 0);
    crate::text::lemma_replace_none(seq![' ', 'I', ' ', 'a', 'm', ' '], " Mana,"@, " ¤(Mana),"@);
    assert(crate::text::witnessed(seq![' ', 'I', ' ', 'a', 'm', ' '], "I’m"@, seq![0, 1, 0, 0], 0)) by { reveal_with_fuel(crate::text::witnessed, 6); }
    crate::text::lemma_witnessed_none(seq![' ', 'I', ' ', 'a', 'm', ' '], "I’m"@, seq![0, 1, 0, 0], 0);
    crate::text::lemma_replace_none(seq![' ', 'I', ' ', 'a', 'm', ' '], "I’m"@, "I am"@);
    assert(crate::text::witnessed(seq![' ', 'I', ' ', 'a', 'm', ' '], "I'm"@, seq![0, 1, 0, 0], 0)) by { reveal_with_fuel(crate::text::witnessed, 6); }
    crate::text::lemma_witnessed_none(seq![' ', 'I', ' ', 'a', 'm', ' '], "I'm"@, seq![0, 1, 0, 0], 0);
    crate::text::lemma_replace_none(seq![' ', 'I', ' ', 'a', 'm', ' '], "I'm"@, "I am"@);
}

/// What group 2 makes of the middle of phrase 15.
proof fn lemma_phrase_15_group_2()
    ensures
        phrase_group_2(seq![' ', 'I', ' ', 'a', 'm', ' ']) == seq![' ', '\u{a4}', '(', 'i', ' ', 'a', 'm', ')', ' '],
{
    reveal(phrase_group_2);
    reveal_strlit(" I am ");
    reveal_strlit(" I have");
    reveal_strlit(" me ");
    reveal_strlit(" my ");
    reveal_strlit(" ¤(I have)");
    reveal_strlit(" ¤(i am) ");
    reveal_strlit(" ¤(i have)");
    reveal_strlit(" ¤(me) ");
    reveal_strlit(" ¤(my) ");
    reveal_strlit(". I am ");
    reveal_strlit(". I have");
    reveal_strlit(". My ");
    reveal_strlit(". ¤(I am) ");
    reveal_strlit(". ¤(My) ");
    assert(crate::text::witnessed(seq![' ', 'I', ' ', 'a', 'm', ' '], ". I am "@, seq![], 0)) by { reveal_with_fuel(crate::text::witnessed, 2); }
    crate::text::lemma_witnessed_none(seq![' ', 'I', ' ', 'a', 'm', ' '], ". I am "@, seq![], 0);
    crate::text::lemma_replace_none(seq![' ', 'I', ' ', 'a', 'm', ' '], ". I am "@, ". ¤(I am) "@);
    assert(crate::text::witnessed_until(seq![' ', 'I', ' ', 'a', 'm', ' '], " I am "@, seq![], 0, 0)) by { reveal_with_fuel(crate::text::witnessed_until, 2); }
    assert(crate::text::witnessed(seq![' ', 'I', ' ', 'a', 'm', ' '], " I am "@, seq![0, 0, 0, 0, 0, 0], 6)) by { reveal_with_fuel(crate::text::witnessed, 8); }
    assert(seq![' ', 'I', ' ', 'a', 'm', ' '].subrange(0, 6) =~= " I am "@);
    crate::text::lemma_replace_once(seq![' ', 'I', ' ', 'a', 'm', ' '], " I am "@, " ¤(i am) "@, 0, seq![], seq![0, 0, 0, 0, 0, 0]);
    assert(seq![' ', 'I', ' ', 'a', 'm', ' '].subrange(0, 0) + " ¤(i am) "@ + seq![' ', 'I', ' ', 'a', 'm', ' '].subrange(6, 6) =~= seq![' ', '\u{a4}', '(', 'i', ' ', 'a', 'm', ')', ' ']);
    assert(crate::text::witnessed(seq![' ', '\u{a4}', '(', 'i', ' ', 'a', 'm', ')', ' '], " I have"@, seq![1, 0, 0], 0)) by { reveal_with_fuel(crate::text::witnessed, 5); }
    crate::text::lemma_witnessed_none(seq![' ', '\u{a4}', '(', 'i', ' ', 'a', 'm', ')', ' '], " I have"@, seq![1, 0, 0], 0);
    crate::text::lemma_replace_none(seq![' ', '\u{a4}', '(', 'i', ' ', 'a', 'm', ')', ' '], " I have"@, " ¤(i have)"@);
    assert(crate::text::witnessed(seq![' ', '\u{a4}', '(', 'i', ' ', 'a', 'm', ')', ' '], ". I have"@, seq![0, 0], 0)) by { reveal_with_fuel(crate::text::witnessed, 4); }
    crate::text::lemma_witnessed_none(seq![' ', '\u{a4}', '(', 'i', ' ', 'a', 'm', ')', ' '], ". I have"@, seq![0, 0], 0);
    crate::text::lemma_replace_none(seq![' ', '\u{a4}', '(', 'i', ' ', 'a', 'm', ')', ' '], ". I have"@, " ¤(I have)"@);
    assert(crate::text::witnessed(seq![' ', '\u{a4}', '(', 'i', ' ', 'a', 'm', ')', ' '], " my "@, seq![1, 0, 0, 0, 1, 0], 0)) by { reveal_with_fuel(crate::text::witnessed, 8); }
    crate::text::lemma_witnessed_none(seq![' ', '\u{a4}', '(', 'i', ' ', 'a', 'm', ')', ' '], " my "@, seq![1, 0, 0, 0, 1, 0], 0);
    crate::text::lemma_replace_none(seq![' ', '\u{a4}', '(', 'i', ' ', 'a', 'm', ')', ' '], " my "@, " ¤(my) "@);
    assert(crate::text::witnessed(seq![' ', '\u{a4}', '(', 'i', ' ', 'a', 'm', ')', ' '], ". My "@, seq![0, 0, 0, 0, 0], 0)) by { reveal_with_fuel(crate::text::witnessed, 7); }
    crate::text::lemma_witnessed_none(seq![' ', '\u{a4}', '(', 'i', ' ', 'a', 'm', ')', ' '], ". My "@, seq![0, 0, 0, 0, 0], 0);
    crate::text::lemma_replace_none(seq![' ', '\u{a4}', '(', 'i', ' ', 'a', 'm', ')', ' '], ". My "@, ". ¤(My) "@);
    assert(crate::text::witnessed(seq![' ', '\u{a4}', '(', 'i', ' ', 'a', 'm', ')', ' '], " me "@, seq![1, 0, 0, 0, 1, 0], 0)) by { reveal_with_fuel(crate::text::witnessed, 8); }
    crate::text::lemma_witnessed_none(seq![' ', '\u{a4}', '(', 'i', ' ', 'a', 'm', ')', ' '], " me "@, seq![1, 0, 0, 0, 1, 0], 0);
    crate::text::lemma_replace_none(seq![' ', '\u{a4}', '(', 'i', ' ', 'a', 'm', ')', ' '], " me "@, " ¤(me) "@);
}

/// What group 3 makes of the middle of phrase 15.
proof fn lemma_phrase_15_group_3()
    ensures
        phrase_group_3(seq![' ', '\u{a4}', '(', 'i', ' ', 'a', 'm', ')', ' ']) == seq![' ', '\u{a4}', '(', 'i', ' ', 'a', 'm', ')', ' '],
{
    reveal(phrase_group_3);
    reveal_strlit(" Me ");
    reveal_strlit(" Me,");
    reveal_strlit(" Me.");
    reveal_strlit(" me,");
    reveal_strlit(" me.");
    reveal_strlit(" ¤(Me) ");
    reveal_strlit(" ¤(Me),");
    reveal_strlit(" ¤(Me).");
    reveal_strlit(" ¤(me),");
    reveal_strlit(" ¤(me).");
    reveal_strlit(". I ");
    reveal_strlit(". ¤(I) ");
    reveal_strlit("\nI ");
    reveal_strlit("\n¤(I) ");
    assert(crate::text::witnessed(seq![' ', '\u{a4}', '(', 'i', ' ', 'a', 'm', ')', ' '], " me,"@, seq![1, 0, 0, 0, 1, 0], 0)) by { reveal_with_fuel(crate::text::witnessed, 8); }
    crate::text::lemma_witnessed_none(seq![' ', '\u{a4}', '(', 'i', ' ', 'a', 'm', ')', ' '], " me,"@, seq![1, 0, 0, 0, 1, 0], 0);
    crate::text::lemma_replace_none(seq![' ', '\u{a4}', '(', 'i', ' ', 'a', 'm', ')', ' '], " me,"@, " ¤(me),"@);
    assert(crate::text::witnessed(seq![' ', '\u{a4}', '(', 'i', ' ', 'a', 'm', ')', ' '], " me."@, seq![1, 0, 0, 0, 1, 0], 0)) by { reveal_with_fuel(crate::text::witnessed, 8); }
    crate::text::lemma_witnessed_none(seq![' ', '\u{a4}', '(', 'i', ' ', 'a', 'm', ')', ' '], " me."@, seq![1, 0, 0, 0, 1, 0], 0);
    crate::text::lemma_replace_none(seq![' ', '\u{a4}', '(', 'i', ' ', 'a', 'm', ')', ' '], " me."@, " ¤(me)."@);
    assert(crate::text::witnessed(seq![' ', '\u{a4}', '(', 'i', ' ', 'a', 'm', ')', ' '], " Me "@, seq![1, 0, 0, 0, 1, 0], 0)) by { reveal_with_fuel(crate::text::witnessed, 8); }
    crate::text::lemma_witnessed_none(seq![' ', '\u{a4}', '(', 'i', ' ', 'a', 'm', ')', ' '], " Me "@, seq![1, 0, 0, 0, 1, 0], 0);
    crate::text::lemma_replace_none(seq![' ', '\u{a4}', '(', 'i', ' ', 'a', 'm', ')', ' '], " Me "@, " ¤(Me) "@);
    assert(crate::text::witnessed(seq![' ', '\u{a4}', '(', 'i', ' ', 'a', 'm', ')', ' '], " Me,"@, seq![1, 0, 0, 0, 1, 0], 0)) by { reveal_with_fuel(crate::text::witnessed, 8); }
    crate::text::lemma_witnessed_none(seq![' ', '\u{a4}', '(', 'i', ' ', 'a', 'm', ')', ' '], " Me,"@, seq![1, 0, 0, 0, 1, 0], 0);
    crate::text::lemma_replace_none(seq![' ', '\u{a4}', '(', 'i', ' ', 'a', 'm', ')', ' '], " Me,"@, " ¤(Me),"@);
    assert(crate::text::witnessed(seq![' ', '\u{a4}', '(', 'i', ' ', 'a', 'm', ')', ' '], " Me."@, seq![1, 0, 0, 0, 1, 0], 0)) by { reveal_with_fuel(crate::text::witnessed, 8); }
    crate::text::lemma_witnessed_none(seq![' ', '\u{a4}', '(', 'i', ' ', 'a', 'm', ')', ' '], " Me."@, seq![1, 0, 0, 0, 1, 0], 0);
    crate::text::lemma_replace_none(seq![' ', '\u{a4}', '(', 'i', ' ', 'a', 'm', ')', ' '], " Me."@, " ¤(Me)."@);
    assert(crate::text::witnessed(seq![' ', '\u{a4}', '(', 'i', ' ', 'a', 'm', ')', ' '], "\nI "@, seq![0, 0, 0, 0, 0, 0, 0], 0)) by { reveal_with_fuel(crate::text::witnessed, 9); }
    crate::text::lemma_witnessed_none(seq![' ', '\u{a4}', '(', 'i', ' ', 'a', 'm', ')', ' '], "\nI "@, seq![0, 0, 0, 0, 0, 0, 0], 0);
    crate::text::lemma_replace_none(seq![' ', '\u{a4}', '(', 'i', ' ', 'a', 'm', ')', ' '], "\nI "@, "\n¤(I) "@);
    assert(crate::text::witnessed(seq![' ', '\u{a4}', '(', 'i', ' ', 'a', 'm', ')', ' '], ". I "@, seq![0, 0, 0, 0, 0, 0], 0)) by { reveal_with_fuel(crate::text::witnessed, 8); }
    crate::text::lemma_witnessed_none(seq![' ', '\u{a4}', '(', 'i', ' ', 'a', 'm', ')', ' '], ". I "@, seq![0, 0, 0, 0, 0, 0], 0);
    crate::text::lemma_replace_none(seq![' ', '\u{a4}', '(', 'i', ' ', 'a', 'm', ')', ' '], ". I "@, ". ¤(I) "@);
}

/// What group 4 makes of the middle of phrase 15.
proof fn lemma_phrase_15_group_4()
    ensures
        phrase_group_4(seq![' ', '\u{a4}', '(', 'i', ' ', 'a', 'm', ')', ' ']) == seq![' ', '\u{a4}', '(', 'i', ' ', 'a', 'm', ')', ' '],
{
    reveal(phrase_group_4);
    reveal_strlit(" I ");
    reveal_strlit(" I,");
    reveal_strlit(" I.");
    reveal_strlit(" ¤(i) ");
    reveal_strlit(" ¤(i),");
    reveal_strlit(" ¤(i).");
    reveal_strlit(". I,");
    reveal_strlit(". I.");
    reveal_strlit(". ¤(I),");
    reveal_strlit(". ¤(I). ");
    reveal_strlit("Cards ¤(I am) attached to");
    reveal_strlit("The card ¤(I am) attached to");
    reveal_strlit("cards ¤(I am) attached to");
    reveal_strlit("the card ¤(I am) attached to");
    assert(crate::text::witnessed(seq![' ', '\u{a4}', '(', 'i', ' ', 'a', 'm', ')', ' '], ". I,"@, seq![0, 0, 0, 0, 0, 0], 0)) by { reveal_with_fuel(crate::text::witnessed, 8); }
    crate::text::lemma_witnessed_none(seq![' ', '\u{a4}', '(', 'i', ' ', 'a', 'm', ')', ' '], ". I,"@, seq![0, 0, 0, 0, 0, 0], 0);
    crate::text::lemma_replace_none(seq![' ', '\u{a4}', '(', 'i', ' ', 'a', 'm', ')', ' '], ". I,"@, ". ¤(I),"@);
    assert(crate::text::witnessed(seq![' ', '\u{a4}', '(', 'i', ' ', 'a', 'm', ')', ' '], ". I."@, seq![0, 0, 0, 0, 0, 0], 0)) by { reveal_with_fuel(crate::text::witnessed, 8); }
    crate::text::lemma_witnessed_none(seq![' ', '\u{a4}', '(', 'i', ' ', 'a', 'm', ')', ' '], ". I."@, seq![0, 0, 0, 0, 0, 0], 0);
    crate::text::lemma_replace_none(seq![' ', '\u{a4}', '(', 'i', ' ', 'a', 'm', ')', ' '], ". I."@, ". ¤(I). "@);
    assert(crate::text::witnessed(seq![' ', '\u{a4}', '(', 'i', ' ', 'a', 'm', ')', ' '], " I "@, seq![1, 0, 0, 0, 1, 0, 0], 0)) by { reveal_with_fuel(crate::text::witnessed, 9); }
    crate::text::lemma_witnessed_none(seq![' ', '\u{a4}', '(', 'i', ' ', 'a', 'm', ')', ' '], " I "@, seq![1, 0, 0, 0, 1, 0, 0], 0);
    crate::text::lemma_replace_none(seq![' ', '\u{a4}', '(', 'i', ' ', 'a', 'm', ')', ' '], " I "@, " ¤(i) "@);
    assert(crate::text::witnessed(seq![' ', '\u{a4}', '(', 'i', ' ', 'a', 'm', ')', ' '], " I,"@, seq![1, 0, 0, 0, 1, 0, 0], 0)) by { reveal_with_fuel(crate::text::witnessed, 9); }
    crate::text::lemma_witnessed_none(seq![' ', '\u{a4}', '(', 'i', ' ', 'a', 'm', ')', ' '], " I,"@, seq![1, 0, 0, 0, 1, 0, 0], 0);
    crate::text::lemma_replace_none(seq![' ', '\u{a4}', '(', 'i', ' ', 'a', 'm', ')', ' '], " I,"@, " ¤(i),"@);
    assert(crate::text::witnessed(seq![' ', '\u{a4}', '(', 'i', ' ', 'a', 'm', ')', ' '], " I."@, seq![1, 0, 0, 0, 1, 0, 0], 0)) by { reveal_with_fuel(crate::text::witnessed, 9); }
    crate::text::lemma_witnessed_none(seq![' ', '\u{a4}', '(', 'i', ' ', 'a', 'm', ')', ' '], " I."@, seq![1, 0, 0, 0, 1, 0, 0], 0);
    crate::text::lemma_replace_none(seq![' ', '\u{a4}', '(', 'i', ' ', 'a', 'm', ')', ' '], " I."@, " ¤(i)."@);
    assert(crate::text::witnessed(seq![' ', '\u{a4}', '(', 'i', ' ', 'a', 'm', ')', ' '], "Cards ¤(I am) attached to"@, seq![], 0)) by { reveal_with_fuel(crate::text::witnessed, 2); }
    crate::text::lemma_witnessed_none(seq![' ', '\u{a4}', '(', 'i', ' ', 'a', 'm', ')', ' '], "Cards ¤(I am) attached to"@, seq![], 0);
    crate::text::lemma_replace_none(seq![' ', '\u{a4}', '(', 'i', ' ', 'a', 'm', ')', ' '], "Cards ¤(I am) attached to"@, "The card ¤(I am) attached to"@);
    assert(crate::text::witnessed(seq![' ', '\u{a4}', '(', 'i', ' ', 'a', 'm', ')', ' '], "cards ¤(I am) attached to"@, seq![], 0)) by { reveal_with_fuel(crate::text::witnessed, 2); }
    crate::text::lemma_witnessed_none(seq![' ', '\u{a4}', '(', 'i', ' ', 'a', 'm', ')', ' '], "cards ¤(I am) attached to"@, seq![], 0);
    crate::text::lemma_replace_none(seq![' ', '\u{a4}', '(', 'i', ' ', 'a', 'm', ')', ' '], "cards ¤(I am) attached to"@, "the card ¤(I am) attached to"@);
}

/// Between digits, phrase 15 becomes what the card text makes of it.
proof fn lemma_phrase_15(x: Seq<char>, y: Seq<char>)
    requires
        all_digits(x),
        all_digits(y),
        trim(x + " I am "@ + y) == x + " I am "@ + y,
    ensures
        phrase_commands(x + " I am "@ + y) == Some(x + seq![' ', '\u{a4}', '(', 'i', ' ', 'a', 'm', ')', ' '] + y),
{
    reveal_strlit(" I am ");
    assert(" I am "@ =~= seq![' ', 'I', ' ', 'a', 'm', ' ']);
    reveal_strlit("Card with");
    reveal_strlit("card with");
    reveal_strlit("Cards with");
    reveal_strlit("cards with");
    let m0 = seq![' ', 'I', ' ', 'a', 'm', ' '];
    lemma_group_framed_0(x, m0, y);
    lemma_phrase_15_group_0();
    let m1 = phrase_group_0(m0);
    lemma_group_framed_1(x, m1, y);
    lemma_phrase_15_group_1();
    let m2 = phrase_group_1(m1);
    lemma_group_framed_2(x, m2, y);
    lemma_phrase_15_group_2();
    let m3 = phrase_group_2(m2);
    lemma_group_framed_3(x, m3, y);
    lemma_phrase_15_group_3();
    let m4 = phrase_group_3(m3);
    lemma_group_framed_4(x, m4, y);
    lemma_phrase_15_group_4();
    let m5 = phrase_group_4(m4);
    assert(crate::text::witnessed(seq![' ', '\u{a4}', '(', 'i', ' ', 'a', 'm', ')', ' '], "Card with"@, seq![0], 0)) by { reveal_with_fuel(crate::text::witnessed, 3); }
    crate::text::lemma_witnessed_none(seq![' ', '\u{a4}', '(', 'i', ' ', 'a', 'm', ')', ' '], "Card with"@, seq![0], 0);
    assert(digit_free("Card with"@));
    crate::text::lemma_replace_framed(x, seq![' ', '\u{a4}', '(', 'i', ' ', 'a', 'm', ')', ' '], y, "Card with"@, "Card with"@);
    assert(with_marker(WithPhrase::Card) == "Card with"@);
    assert(crate::text::witnessed(seq![' ', '\u{a4}', '(', 'i', ' ', 'a', 'm', ')', ' '], "card with"@, seq![0], 0)) by { reveal_with_fuel(crate::text::witnessed, 3); }
    crate::text::lemma_witnessed_none(seq![' ', '\u{a4}', '(', 'i', ' ', 'a', 'm', ')', ' '], "card with"@, seq![0], 0);
    assert(digit_free("card with"@));
    crate::text::lemma_replace_framed(x, seq![' ', '\u{a4}', '(', 'i', ' ', 'a', 'm', ')', ' '], y, "card with"@, "card with"@);
    assert(with_marker(WithPhrase::CardLower) == "card with"@);
    assert(crate::text::witnessed(seq![' ', '\u{a4}', '(', 'i', ' ', 'a', 'm', ')', ' '], "Cards with"@, seq![], 0)) by { reveal_with_fuel(crate::text::witnessed, 2); }
    crate::text::lemma_witnessed_none(seq![' ', '\u{a4}', '(', 'i', ' ', 'a', 'm', ')', ' '], "Cards with"@, seq![], 0);
    assert(digit_free("Cards with"@));
    crate::text::lemma_replace_framed(x, seq![' ', '\u{a4}', '(', 'i', ' ', 'a', 'm', ')', ' '], y, "Cards with"@, "Cards with"@);
    assert(with_marker(WithPhrase::Cards) == "Cards with"@);
    assert(crate::text::witnessed(seq![' ', '\u{a4}', '(', 'i', ' ', 'a', 'm', ')', ' '], "cards with"@, seq![], 0)) by { reveal_with_fuel(crate::text::witnessed, 2); }
    crate::text::lemma_witnessed_none(seq![' ', '\u{a4}', '(', 'i', ' ', 'a', 'm', ')', ' '], "cards with"@, seq![], 0);
    assert(digit_free("cards with"@));
    crate::text::lemma_replace_framed(x, seq![' ', '\u{a4}', '(', 'i', ' ', 'a', 'm', ')', ' '], y, "cards with"@, "cards with"@);
    assert(with_marker(WithPhrase::CardsLower) == "cards with"@);
}

/// What group 0 makes of the middle of phrase 16.
proof fn lemma_phrase_16_group_0()
    ensures
        phrase_group_0(seq![' ', 'I', ' ', 'h', 'a', 'v', 'e']) == seq![' ', 'I', ' ', 'h', 'a', 'v', 'e'],
{
    reveal(phrase_group_0);
    reveal_strlit(" ");
    reveal_strlit("  ");
    reveal_strlit(" mana ");
    reveal_strlit(" ¤(mana) ");
    reveal_strlit("Boost");
    reveal_strlit("Experience");
    reveal_strlit("\n ");
    reveal_strlit("boost");
    reveal_strlit("experience");
    reveal_strlit("¤(Boost)");
    reveal_strlit("¤(Xp)");
    reveal_strlit("¤(boost)");
    reveal_strlit("¤(xp)");
    assert(crate::text::witnessed(seq![' ', 'I', ' ', 'h', 'a', 'v', 'e'], "\n "@, seq![0, 0, 0, 0, 0, 0], 0)) by { reveal_with_fuel(crate::text::witnessed, 8); }
    crate::text::lemma_witnessed_none(seq![' ', 'I', ' ', 'h', 'a', 'v', 'e'], "\n "@, seq![0, 0, 0, 0, 0, 0], 0);
    crate::text::lemma_replace_none(seq![' ', 'I', ' ', 'h', 'a', 'v', 'e'], "\n "@, " "@);
    assert(crate::text::witnessed(seq![' ', 'I', ' ', 'h', 'a', 'v', 'e'], "  "@, seq![1, 0, 1, 0, 0, 0], 0)) by { reveal_with_fuel(crate::text::witnessed, 8); }
    crate::text::lemma_witnessed_none(seq![' ', 'I', ' ', 'h', 'a', 'v', 'e'], "  "@, seq![1, 0, 1, 0, 0, 0], 0);
    crate::text::lemma_replace_none(seq![' ', 'I', ' ', 'h', 'a', 'v', 'e'], "  "@, " "@);
    assert(crate::text::witnessed(seq![' ', 'I', ' ', 'h', 'a', 'v', 'e'], "Boost"@, seq![0, 0, 0], 0)) by { reveal_with_fuel(crate::text::witnessed, 5); }
    crate::text::lemma_witnessed_none(seq![' ', 'I', ' ', 'h', 'a', 'v', 'e'], "Boost"@, seq![0, 0, 0], 0);
    crate::text::lemma_replace_none(seq![' ', 'I', ' ', 'h', 'a', 'v', 'e'], "Boost"@, "¤(Boost)"@);
    assert(crate::text::witnessed(seq![' ', 'I', ' ', 'h', 'a', 'v', 'e'], "boost"@, seq![0, 0, 0], 0)) by { reveal_with_fuel(crate::text::witnessed, 5); }
    crate::text::lemma_witnessed_none(seq![' ', 'I', ' ', 'h', 'a', 'v', 'e'], "boost"@, seq![0, 0, 0], 0);
    crate::text::lemma_replace_none(seq![' ', 'I', ' ', 'h', 'a', 'v', 'e'], "boost"@, "¤(boost)"@);
    assert(crate::text::witnessed(seq![' ', 'I', ' ', 'h', 'a', 'v', 'e'], "experience"@, seq![], 0)) by { reveal_with_fuel(crate::text::witnessed, 2); }
    crate::text::lemma_witnessed_none(seq![' ', 'I', ' ', 'h', 'a', 'v', 'e'], "experience"@, seq![], 0);
    crate::text::lemma_replace_none(seq![' ', 'I', ' ', 'h', 'a', 'v', 'e'], "experience"@, "¤(xp)"@);
    assert(crate::text::witnessed(seq![' ', 'I', ' ', 'h', 'a', 'v', 'e'], "Experience"@, seq![], 0)) by { reveal_with_fuel(crate::text::witnessed, 2); }
    crate::text::lemma_witnessed_none(seq![' ', 'I', ' ', 'h', 'a', 'v', 'e'], "Experience"@, seq![], 0);
    crate::text::lemma_replace_none(seq![' ', 'I', ' ', 'h', 'a', 'v', 'e'], "Experience"@, "¤(Xp)"@);
    assert(crate::text::witnessed(seq![' ', 'I', ' ', 'h', 'a', 'v', 'e'], " mana "@, seq![1, 0], 0)) by { reveal_with_fuel(crate::text::witnessed, 4); }
    crate::text::lemma_witnessed_none(seq![' ', 'I', ' ', 'h', 'a', 'v', 'e'], " mana "@, seq![1, 0], 0);
    crate::text::lemma_replace_none(seq![' ', 'I', ' ', 'h', 'a', 'v', 'e'], " mana "@, " ¤(mana) "@);
}

/// What group 1 makes of the middle of phrase 16.
proof fn lemma_phrase_16_group_1()
    ensures
        phrase_group_1(seq![' ', 'I', ' ', 'h', 'a', 'v', 'e']) == seq![' ', 'I', ' ', 'h', 'a', 'v', 'e'],
{
    reveal(phrase_group_1);
    reveal_strlit(" Mana ");
    reveal_strlit(" Mana,");
    reveal_strlit(" Mana.");
    reveal_strlit(" mana,");
    reveal_strlit(" mana.");
    reveal_strlit(" ¤(Mana) ");
    reveal_strlit(" ¤(Mana),");
    reveal_strlit(" ¤(Mana).");
    reveal_strlit(" ¤(mana),");
    reveal_strlit(" ¤(mana).");
    reveal_strlit("I am");
    reveal_strlit("I'm");
    reveal_strlit("I’m");
    assert(crate::text::witnessed(seq![' ', 'I', ' ', 'h', 'a', 'v', 'e'], " mana."@, seq![1, 0], 0)) by { reveal_with_fuel(crate::text::witnessed, 4); }
    crate::text::lemma_witnessed_none(seq![' ', 'I', ' ', 'h', 'a', 'v', 'e'], " mana."@, seq![1, 0], 0);
    crate::text::lemma_replace_none(seq![' ', 'I', ' ', 'h', 'a', 'v', 'e'], " mana."@, " ¤(mana)."@);
    assert(crate::text::witnessed(seq![' ', 'I', ' ', 'h', 'a', 'v', 'e'], " mana,"@, seq![1, 0], 0)) by { reveal_with_fuel(crate::text::witnessed, 4); }
    crate::text::lemma_witnessed_none(seq![' ', 'I', ' ', 'h', 'a', 'v', 'e'], " mana,"@, seq![1, 0], 0);
    crate::text::lemma_replace_none(seq![' ', 'I', ' ', 'h', 'a', 'v', 'e'], " mana,"@, " ¤(mana),"@);
    assert(crate::text::witnessed(seq![' ', 'I', ' ', 'h', 'a', 'v', 'e'], " Mana "@, seq![1, 0], 0)) by { reveal_with_fuel(crate::text::witnessed, 4); }
    crate::text::lemma_witnessed_none(seq![' ', 'I', ' ', 'h', 'a', 'v', 'e'], " Mana "@, seq![1, 0], 0);
    crate::text::lemma_replace_none(seq![' ', 'I', ' ', 'h', 'a', 'v', 'e'], " Mana "@, " ¤(Mana) "@);
    assert(crate::text::witnessed(seq![' ', 'I', ' ', 'h', 'a', 'v', 'e'], " Mana."@, seq![1, 0], 0)) by { reveal_with_fuel(crate::text::witnessed, 4); }
    crate::text::lemma_witnessed_none(seq![' ', 'I', ' ', 'h', 'a', 'v', 'e'], " Mana."@, seq![1, 0], 0);
    crate::text::lemma_replace_none(seq![' ', 'I', ' ', 'h', 'a', 'v', 'e'], " Mana."@, " ¤(Mana)."@);
    assert(crate::text::witnessed(seq![' ', 'I', ' ', 'h', 'a', 'v', 'e'], " Mana,"@, seq![1, 0], 0)) by { reveal_with_fuel(crate::text::witnessed, 4); }
    crate::text::lemma_witnessed_none(seq![' ', 'I', ' ', 'h', 'a', 'v', 'e'], " Mana,"@, seq![1, 0], 0);
    crate::text::lemma_replace_none(seq![' ', 'I', ' ', 'h', 'a', 'v', 'e'], " Mana,"@, " ¤(Mana),"@);
    assert(crate::text::witnessed(seq![' ', 'I', ' ', 'h', 'a', 'v', 'e'], "I’m"@, seq![0, 1, 0, 0, 0], 0)) by { reveal_with_fuel(crate::text::witnessed, 7); }
    crate::text::lemma_witnessed_none(seq![' ', 'I', ' ', 'h', 'a', 'v', 'e'], "I’m"@, seq![0, 1, 0, 0, 0], 0);
    crate::text::lemma_replace_none(seq![' ', 'I', ' ', 'h', 'a', 'v', 'e'], "I’m"@, "I am"@);
    assert(crate::text::witnessed(seq![' ', 'I', ' ', 'h', 'a', 'v', 'e'], "I'm"@, seq![0, 1, 0, 0, 0], 0)) by { reveal_with_fuel(crate::text::witnessed, 7); }
    crate::text::lemma_witnessed_none(seq![' ', 'I', ' ', 'h', 'a', 'v', 'e'], "I'm"@, seq![0, 1, 0, 0, 0], 0);
    crate::text::lemma_replace_none(seq![' ', 'I', ' ', 'h', 'a', 'v', 'e'], "I'm"@, "I am"@);
}

/// What group 2 makes of the middle of phrase 16.
proof fn lemma_phrase_16_group_2()
    ensures
        phrase_group_2(seq![' ', 'I', ' ', 'h', 'a', 'v', 'e']) == seq![' ', '\u{a4}', '(', 'i', ' ', 'h', 'a', 'v', 'e', ')'],
{
    reveal(phrase_group_2);
    reveal_strlit(" I am ");
    reveal_strlit(" I have");
    reveal_strlit(" me ");
    reveal_strlit(" my ");
    reveal_strlit(" ¤(I have)");
    reveal_strlit(" ¤(i am) ");
    reveal_strlit(" ¤(i have)");
    reveal_strlit(" ¤(me) ");
    reveal_strlit(" ¤(my) ");
    reveal_strlit(". I am ");
    reveal_strlit(". I have");
    reveal_strlit(". My ");
    reveal_strlit(". ¤(I am) ");
    reveal_strlit(". ¤(My) ");
    assert(crate::text::witnessed(seq![' ', 'I', ' ', 'h', 'a', 'v', 'e'], ". I am "@, seq![0], 0)) by { reveal_with_fuel(crate::text::witnessed, 3); }
    crate::text::lemma_witnessed_none(seq![' ', 'I', ' ', 'h', 'a', 'v', 'e'], ". I am "@, seq![0], 0);
    crate::text::lemma_replace_none(seq![' ', 'I', ' ', 'h', 'a', 'v', 'e'], ". I am "@, ". ¤(I am) "@);
    assert(crate::text::witnessed(seq![' ', 'I', ' ', 'h', 'a', 'v', 'e'], " I am "@, seq![3, 0], 0)) by { reveal_with_fuel(crate::text::witnessed, 4); }
    crate::text::lemma_witnessed_none(seq![' ', 'I', ' ', 'h', 'a', 'v', 'e'], " I am "@, seq![3, 0], 0);
    crate::text::lemma_replace_none(seq![' ', 'I', ' ', 'h', 'a', 'v', 'e'], " I am "@, " ¤(i am) "@);
    assert(crate::text::witnessed_until(seq![' ', 'I', ' ', 'h', 'a', 'v', 'e'], " I have"@, seq![], 0, 0)) by { reveal_with_fuel(crate::text::witnessed_until, 2); }
    assert(crate::text::witnessed(seq![' ', 'I', ' ', 'h', 'a', 'v', 'e'], " I have"@, seq![0, 0, 0, 0, 0, 0, 0], 7)) by { reveal_with_fuel(crate::text::witnessed, 9); }
    assert(seq![' ', 'I', ' ', 'h', 'a', 'v', 'e'].subrange(0, 7) =~= " I have"@);
    crate::text::lemma_replace_once(seq![' ', 'I', ' ', 'h', 'a', 'v', 'e'], " I have"@, " ¤(i have)"@, 0, seq![], seq![0, 0, 0, 0, 0, 0, 0]);
    assert(seq![' ', 'I', ' ', 'h', 'a', 'v', 'e'].subrange(0, 0) + " ¤(i have)"@ + seq![' ', 'I', ' ', 'h', 'a', 'v', 'e'].subrange(7, 7) =~= seq![' ', '\u{a4}', '(', 'i', ' ', 'h', 'a', 'v', 'e', ')']);
    assert(crate::text::witnessed(seq![' ', '\u{a4}', '(', 'i', ' ', 'h', 'a', 'v', 'e', ')'], ". I have"@, seq![0, 0, 0], 0)) by { reveal_with_fuel(crate::text::witnessed, 5); }
    crate::text::lemma_witnessed_none(seq![' ', '\u{a4}', '(', 'i', ' ', 'h', 'a', 'v', 'e', ')'], ". I have"@, seq![0, 0, 0], 0);
    crate::text::lemma_replace_none(seq![' ', '\u{a4}', '(', 'i', ' ', 'h', 'a', 'v', 'e', ')'], ". I have"@, " ¤(I have)"@);
    assert(crate::text::witnessed(seq![' ', '\u{a4}', '(', 'i', ' ', 'h', 'a', 'v', 'e', ')'], " my "@, seq![1, 0, 0, 0, 1, 0, 0], 0)) by { reveal_with_fuel(crate::text::witnessed, 9); }
    crate::text::lemma_witnessed_none(seq![' ', '\u{a4}', '(', 'i', ' ', 'h', 'a', 'v', 'e', ')'], " my "@, seq![1, 0, 0, 0, 1, 0, 0], 0);
    crate::text::lemma_replace_none(seq![' ', '\u{a4}', '(', 'i', ' ', 'h', 'a', 'v', 'e', ')'], " my "@, " ¤(my) "@);
    assert(crate::text::witnessed(seq![' ', '\u{a4}', '(', 'i', ' ', 'h', 'a', 'v', 'e', ')'], ". My "@, seq![0, 0, 0, 0, 0, 0], 0)) by { reveal_with_fuel(crate::text::witnessed, 8); }
    crate::text::lemma_witnessed_none(seq![' ', '\u{a4}', '(', 'i', ' ', 'h', 'a', 'v', 'e', ')'], ". My "@, seq![0, 0, 0, 0, 0, 0], 0);
    crate::text::lemma_replace_none(seq![' ', '\u{a4}', '(', 'i', ' ', 'h', 'a', 'v', 'e', ')'], ". My "@, ". ¤(My) "@);
    assert(crate::text::witnessed(seq![' ', '\u{a4}', '(', 'i', ' ', 'h', 'a', 'v', 'e', ')'], " me "@, seq![1, 0, 0, 0, 1, 0, 0], 0)) by { reveal_with_fuel(crate::text::witnessed, 9); }
    crate::text::lemma_witnessed_none(seq![' ', '\u{a4}', '(', 'i', ' ', 'h', 'a', 'v', 'e', ')'], " me "@, seq![1, 0, 0, 0, 1, 0, 0], 0);
    crate::text::lemma_replace_none(seq![' ', '\u{a4}', '(', 'i', ' ', 'h', 'a', 'v', 'e', ')'], " me "@, " ¤(me) "@);
}

/// What group 3 makes of the middle of phrase 16.
proof fn lemma_phrase_16_group_3()
    ensures
        phrase_group_3(seq![' ', '\u{a4}', '(', 'i', ' ', 'h', 'a', 'v', 'e', ')']) == seq![' ', '\u{a4}', '(', 'i', ' ', 'h', 'a', 'v', 'e', ')'],
{
    reveal(phrase_group_3);
    reveal_strlit(" Me ");
    reveal_strlit(" Me,");
    reveal_strlit(" Me.");
    reveal_strlit(" me,");
    reveal_strlit(" me.");
    reveal_strlit(" ¤(Me) ");
    reveal_strlit(" ¤(Me),");
    reveal_strlit(" ¤(Me).");
    reveal_strlit(" ¤(me),");
    reveal_strlit(" ¤(me).");
    reveal_strlit(". I ");
    reveal_strlit(". ¤(I) ");
    reveal_strlit("\nI ");
    reveal_strlit("\n¤(I) ");
    assert(crate::text::witnessed(seq![' ', '\u{a4}', '(', 'i', ' ', 'h', 'a', 'v', 'e', ')'], " me,"@, seq![1, 0, 0, 0, 1, 0, 0], 0)) by { reveal_with_fuel(crate::text::witnessed, 9); }
    crate::text::lemma_witnessed_none(seq![' ', '\u{a4}', '(', 'i', ' ', 'h', 'a', 'v', 'e', ')'], " me,"@, seq![1, 0, 0, 0, 1, 0, 0], 0);
    crate::text::lemma_replace_none(seq![' ', '\u{a4}', '(', 'i', ' ', 'h', 'a', 'v', 'e', ')'], " me,"@, " ¤(me),"@);
    assert(crate::text::witnessed(seq![' ', '\u{a4}', '(', 'i', ' ', 'h', 'a', 'v', 'e', ')'], " me."@, seq![1, 0, 0, 0, 1, 0, 0], 0)) by { reveal_with_fuel(crate::text::witnessed, 9); }
    crate::text::lemma_witnessed_none(seq![' ', '\u{a4}', '(', 'i', ' ', 'h', 'a', 'v', 'e', ')'], " me."@, seq![1, 0, 0, 0, 1, 0, 0], 0);
    crate::text::lemma_replace_none(seq![' ', '\u{a4}', '(', 'i', ' ', 'h', 'a', 'v', 'e', ')'], " me."@, " ¤(me)."@);
    assert(crate::text::witnessed(seq![' ', '\u{a4}', '(', 'i', ' ', 'h', 'a', 'v', 'e', ')'], " Me "@, seq![1, 0, 0, 0, 1, 0, 0], 0)) by { reveal_with_fuel(crate::text::witnessed, 9); }
    crate::text::lemma_witnessed_none(seq![' ', '\u{a4}', '(', 'i', ' ', 'h', 'a', 'v', 'e', ')'], " Me "@, seq![1, 0, 0, 0, 1, 0, 0], 0);
    crate::text::lemma_replace_none(seq![' ', '\u{a4}', '(', 'i', ' ', 'h', 'a', 'v', 'e', ')'], " Me "@, " ¤(Me) "@);
    assert(crate::text::witnessed(seq![' ', '\u{a4}', '(', 'i', ' ', 'h', 'a', 'v', 'e', ')'], " Me,"@, seq![1, 0, 0, 0, 1, 0, 0], 0)) by { reveal_with_fuel(crate::text::witnessed, 9); }
    crate::text::lemma_witnessed_none(seq![' ', '\u{a4}', '(', 'i', ' ', 'h', 'a', 'v', 'e', ')'], " Me,"@, seq![1, 0, 0, 0, 1, 0, 0], 0);
    crate::text::lemma_replace_none(seq![' ', '\u{a4}', '(', 'i', ' ', 'h', 'a', 'v', 'e', ')'], " Me,"@, " ¤(Me),"@);
    assert(crate::text::witnessed(seq![' ', '\u{a4}', '(', 'i', ' ', 'h', 'a', 'v', 'e', ')'], " Me."@, seq![1, 0, 0, 0, 1, 0, 0], 0)) by { reveal_with_fuel(crate::text::witnessed, 9); }
    crate::text::lemma_witnessed_none(seq![' ', '\u{a4}', '(', 'i', ' ', 'h', 'a', 'v', 'e', ')'], " Me."@, seq![1, 0, 0, 0, 1, 0, 0], 0);
    crate::text::lemma_replace_none(seq![' ', '\u{a4}', '(', 'i', ' ', 'h', 'a', 'v', 'e', ')'], " Me."@, " ¤(Me)."@);
    assert(crate::text::witnessed(seq![' ', '\u{a4}', '(', 'i', ' ', 'h', 'a', 'v', 'e', ')'], "\nI "@, seq![0, 0, 0, 0, 0, 0, 0, 0], 0)) by { reveal_with_fuel(crate::text::witnessed, 10); }
    crate::text::lemma_witnessed_none(seq![' ', '\u{a4}', '(', 'i', ' ', 'h', 'a', 'v', 'e', ')'], "\nI "@, seq![0, 0, 0, 0, 0, 0, 0, 0], 0);
    crate::text::lemma_replace_none(seq![' ', '\u{a4}', '(', 'i', ' ', 'h', 'a', 'v', 'e', ')'], "\nI "@, "\n¤(I) "@);
    assert(crate::text::witnessed(seq![' ', '\u{a4}', '(', 'i', ' ', 'h', 'a', 'v', 'e', ')'], ". I "@, seq![0, 0, 0, 0, 0, 0, 0], 0)) by { reveal_with_fuel(crate::text::witnessed, 9); }
    crate::text::lemma_witnessed_none(seq![' ', '\u{a4}', '(', 'i', ' ', 'h', 'a', 'v', 'e', ')'], ". I "@, seq![0, 0, 0, 0, 0, 0, 0], 0);
    crate::text::lemma_replace_none(seq![' ', '\u{a4}', '(', 'i', ' ', 'h', 'a', 'v', 'e', ')'], ". I "@, ". ¤(I) "@);
}

/// What group 4 makes of the middle of phrase 16.
proof fn lemma_phrase_16_group_4()
    ensures
        phrase_group_4(seq![' ', '\u{a4}', '(', 'i', ' ', 'h', 'a', 'v', 'e', ')']) == seq![' ', '\u{a4}', '(', 'i', ' ', 'h', 'a', 'v', 'e', ')'],
{
    reveal(phrase_group_4);
    reveal_strlit(" I ");
    reveal_strlit(" I,");
    reveal_strlit(" I.");
    reveal_strlit(" ¤(i) ");
    reveal_strlit(" ¤(i),");
    reveal_strlit(" ¤(i).");
    reveal_strlit(". I,");
    reveal_strlit(". I.");
    reveal_strlit(". ¤(I),");
    reveal_strlit(". ¤(I). ");
    reveal_strlit("Cards ¤(I am) attached to");
    reveal_strlit("The card ¤(I am) attached to");
    reveal_strlit("cards ¤(I am) attached to");
    reveal_strlit("the card ¤(I am) attached to");
    assert(crate::text::witnessed(seq![' ', '\u{a4}', '(', 'i', ' ', 'h', 'a', 'v', 'e', ')'], ". I,"@, seq![0, 0, 0, 0, 0, 0, 0], 0)) by { reveal_with_fuel(crate::text::witnessed, 9); }
    crate::text::lemma_witnessed_none(seq![' ', '\u{a4}', '(', 'i', ' ', 'h', 'a', 'v', 'e', ')'], ". I,"@, seq![0, 0, 0, 0, 0, 0, 0], 0);
    crate::text::lemma_replace_none(seq![' ', '\u{a4}', '(', 'i', ' ', 'h', 'a', 'v', 'e', ')'], ". I,"@, ". ¤(I),"@);
    assert(crate::text::witnessed(seq![' ', '\u{a4}', '(', 'i', ' ', 'h', 'a', 'v', 'e', ')'], ". I."@, seq![0, 0, 0, 0, 0, 0, 0], 0)) by { reveal_with_fuel(crate::text::witnessed, 9); }
    crate::text::lemma_witnessed_none(seq![' ', '\u{a4}', '(', 'i', ' ', 'h', 'a', 'v', 'e', ')'], ". I."@, seq![0, 0, 0, 0, 0, 0, 0], 0);
    crate::text::lemma_replace_none(seq![' ', '\u{a4}', '(', 'i', ' ', 'h', 'a', 'v', 'e', ')'], ". I."@, ". ¤(I). "@);
    assert(crate::text::witnessed(seq![' ', '\u{a4}', '(', 'i', ' ', 'h', 'a', 'v', 'e', ')'], " I "@, seq![1, 0, 0, 0, 1, 0, 0, 0], 0)) by { reveal_with_fuel(crate::text::witnessed, 10); }
    crate::text::lemma_witnessed_none(seq![' ', '\u{a4}', '(', 'i', ' ', 'h', 'a', 'v', 'e', ')'], " I "@, seq![1, 0, 0, 0, 1, 0, 0, 0], 0);
    crate::text::lemma_replace_none(seq![' ', '\u{a4}', '(', 'i', ' ', 'h', 'a', 'v', 'e', ')'], " I "@, " ¤(i) "@);
    assert(crate::text::witnessed(seq![' ', '\u{a4}', '(', 'i', ' ', 'h', 'a', 'v', 'e', ')'], " I,"@, seq![1, 0, 0, 0, 1, 0, 0, 0], 0)) by { reveal_with_fuel(crate::text::witnessed, 10); }
    crate::text::lemma_witnessed_none(seq![' ', '\u{a4}', '(', 'i', ' ', 'h', 'a', 'v', 'e', ')'], " I,"@, seq![1, 0, 0, 0, 1, 0, 0, 0], 0);
    crate::text::lemma_replace_none(seq![' ', '\u{a4}', '(', 'i', ' ', 'h', 'a', 'v', 'e', ')'], " I,"@, " ¤(i),"@);
    assert(crate::text::witnessed(seq![' ', '\u{a4}', '(', 'i', ' ', 'h', 'a', 'v', 'e', ')'], " I."@, seq![1, 0, 0, 0, 1, 0, 0, 0], 0)) by { reveal_with_fuel(crate::text::witnessed, 10); }
    crate::text::lemma_witnessed_none(seq![' ', '\u{a4}', '(', 'i', ' ', 'h', 'a', 'v', 'e', ')'], " I."@, seq![1, 0, 0, 0, 1, 0, 0, 0], 0);
    crate::text::lemma_replace_none(seq![' ', '\u{a4}', '(', 'i', ' ', 'h', 'a', 'v', 'e', ')'], " I."@, " ¤(i)."@);
    assert(crate::text::witnessed(seq![' ', '\u{a4}', '(', 'i', ' ', 'h', 'a', 'v', 'e', ')'], "Cards ¤(I am) attached to"@, seq![], 0)) by { reveal_with_fuel(crate::text::witnessed, 2); }
    crate::text::lemma_witnessed_none(seq![' ', '\u{a4}', '(', 'i', ' ', 'h', 'a', 'v', 'e', ')'], "Cards ¤(I am) attached to"@, seq![], 0);
    crate::text::lemma_replace_none(seq![' ', '\u{a4}', '(', 'i', ' ', 'h', 'a', 'v', 'e', ')'], "Cards ¤(I am) attached to"@, "The card ¤(I am) attached to"@);
    assert(crate::text::witnessed(seq![' ', '\u{a4}', '(', 'i', ' ', 'h', 'a', 'v', 'e', ')'], "cards ¤(I am) attached to"@, seq![], 0)) by { reveal_with_fuel(crate::text::witnessed, 2); }
    crate::text::lemma_witnessed_none(seq![' ', '\u{a4}', '(', 'i', ' ', 'h', 'a', 'v', 'e', ')'], "cards ¤(I am) attached to"@, seq![], 0);
    crate::text::lemma_replace_none(seq![' ', '\u{a4}', '(', 'i', ' ', 'h', 'a', 'v', 'e', ')'], "cards ¤(I am) attached to"@, "the card ¤(I am) attached to"@);
}

/// Between digits, phrase 16 becomes what the card text makes of it.
proof fn lemma_phrase_16(x: Seq<char>, y: Seq<char>)
    requires
        all_digits(x),
        all_digits(y),
        trim(x + " I have"@ + y) == x + " I have"@ + y,
    ensures
        phrase_commands(x + " I have"@ + y) == Some(x + seq![' ', '\u{a4}', '(', 'i', ' ', 'h', 'a', 'v', 'e', ')'] + y),
{
    reveal_strlit(" I have");
    assert(" I have"@ =~= seq![' ', 'I', ' ', 'h', 'a', 'v', 'e']);
    reveal_strlit("Card with");
    reveal_strlit("card with");
    reveal_strlit("Cards with");
    reveal_strlit("cards with");
    let m0 = seq![' ', 'I', ' ', 'h', 'a', 'v', 'e'];
    lemma_group_framed_0(x, m0, y);
    lemma_phrase_16_group_0();
    let m1 = phrase_group_0(m0);
    lemma_group_framed_1(x, m1, y);
    lemma_phrase_16_group_1();
    let m2 = phrase_group_1(m1);
    lemma_group_framed_2(x, m2, y);
    lemma_phrase_16_group_2();
    let m3 = phrase_group_2(m2);
    lemma_group_framed_3(x, m3, y);
    lemma_phrase_16_group_3();
    let m4 = phrase_group_3(m3);
    lemma_group_framed_4(x, m4, y);
    lemma_phrase_16_group_4();
    let m5 = phrase_group_4(m4);
    assert(crate::text::witnessed(seq![' ', '\u{a4}', '(', 'i', ' ', 'h', 'a', 'v', 'e', ')'], "Card with"@, seq![0, 0], 0)) by { reveal_with_fuel(crate::text::witnessed, 4); }
    crate::text::lemma_witnessed_none(seq![' ', '\u{a4}', '(', 'i', ' ', 'h', 'a', 'v', 'e', ')'], "Card with"@, seq![0, 0], 0);
    assert(digit_free("Card with"@));
    crate::text::lemma_replace_framed(x, seq![' ', '\u{a4}', '(', 'i', ' ', 'h', 'a', 'v', 'e', ')'], y, "Card with"@, "Card with"@);
    assert(with_marker(WithPhrase::Card) == "Card with"@);
    assert(crate::text::witnessed(seq![' ', '\u{a4}', '(', 'i', ' ', 'h', 'a', 'v', 'e', ')'], "card with"@, seq![0, 0], 0)) by { reveal_with_fuel(crate::text::witnessed, 4); }
    crate::text::lemma_witnessed_none(seq![' ', '\u{a4}', '(', 'i', ' ', 'h', 'a', 'v', 'e', ')'], "card with"@, seq![0, 0], 0);
    assert(digit_free("card with"@));
    crate::text::lemma_replace_framed(x, seq![' ', '\u{a4}', '(', 'i', ' ', 'h', 'a', 'v', 'e', ')'], y, "card with"@, "card with"@);
    assert(with_marker(WithPhrase::CardLower) == "card with"@);
    assert(crate::text::witnessed(seq![' ', '\u{a4}', '(', 'i', ' ', 'h', 'a', 'v', 'e', ')'], "Cards with"@, seq![0], 0)) by { reveal_with_fuel(crate::text::witnessed, 3); }
    crate::text::lemma_witnessed_none(seq![' ', '\u{a4}', '(', 'i', ' ', 'h', 'a', 'v', 'e', ')'], "Cards with"@, seq![0], 0);
    assert(digit_free("Cards with"@));
    crate::text::lemma_replace_framed(x, seq![' ', '\u{a4}', '(', 'i', ' ', 'h', 'a', 'v', 'e', ')'], y, "Cards with"@, "Cards with"@);
    assert(with_marker(WithPhrase::Cards) == "Cards with"@);
    assert(crate::text::witnessed(seq![' ', '\u{a4}', '(', 'i', ' ', 'h', 'a', 'v', 'e', ')'], "cards with"@, seq![0], 0)) by { reveal_with_fuel(crate::text::witnessed, 3); }
    crate::text::lemma_witnessed_none(seq![' ', '\u{a4}', '(', 'i', ' ', 'h', 'a', 'v', 'e', ')'], "cards with"@, seq![0], 0);
    assert(digit_free("cards with"@));
    crate::text::lemma_replace_framed(x, seq![' ', '\u{a4}', '(', 'i', ' ', 'h', 'a', 'v', 'e', ')'], y, "cards with"@, "cards with"@);
    assert(with_marker(WithPhrase::CardsLower) == "cards with"@);
}

/// What group 0 makes of the middle of phrase 17.
proof fn lemma_phrase_17_group_0()
    ensures
        phrase_group_0(seq!['.', ' ', 'I', ' ', 'h', 'a', 'v', 'e']) == seq!['.', ' ', 'I', ' ', 'h', 'a', 'v', 'e'],
{
    reveal(phrase_group_0);
    reveal_strlit(" ");
    reveal_strlit("  ");
    reveal_strlit(" mana ");
    reveal_strlit(" ¤(mana) ");
    reveal_strlit("Boost");
    reveal_strlit("Experience");
    reveal_strlit("\n ");
    reveal_strlit("boost");
    reveal_strlit("experience");
    reveal_strlit("¤(Boost)");
    reveal_strlit("¤(Xp)");
    reveal_strlit("¤(boost)");
    reveal_strlit("¤(xp)");
    assert(crate::text::witnessed(seq!['.', ' ', 'I', ' ', 'h', 'a', 'v', 'e'], "\n "@, seq![0, 0, 0, 0, 0, 0, 0], 0)) by { reveal_with_fuel(crate::text::witnessed, 9); }
    crate::text::lemma_witnessed_none(seq!['.', ' ', 'I', ' ', 'h', 'a', 'v', 'e'], "\n "@, seq![0, 0, 0, 0, 0, 0, 0], 0);
    crate::text::lemma_replace_none(seq!['.', ' ', 'I', ' ', 'h', 'a', 'v', 'e'], "\n "@, " "@);
    assert(crate::text::witnessed(seq!['.', ' ', 'I', ' ', 'h', 'a', 'v', 'e'], "  "@, seq![0, 1, 0, 1, 0, 0, 0], 0)) by { reveal_with_fuel(crate::text::witnessed, 9); }
    crate::text::lemma_witnessed_none(seq!['.', ' ', 'I', ' ', 'h', 'a', 'v', 'e'], "  "@, seq![0, 1, 0, 1, 0, 0, 0], 0);
    crate::text::lemma_replace_none(seq!['.', ' ', 'I', ' ', 'h', 'a', 'v', 'e'], "  "@, " "@);
    assert(crate::text::witnessed(seq!['.', ' ', 'I', ' ', 'h', 'a', 'v', 'e'], "Boost"@, seq![0, 0, 0, 0], 0)) by { reveal_with_fuel(crate::text::witnessed, 6); }
    crate::text::lemma_witnessed_none(seq!['.', ' ', 'I', ' ', 'h', 'a', 'v', 'e'], "Boost"@, seq![0, 0, 0, 0], 0);
    crate::text::lemma_replace_none(seq!['.', ' ', 'I', ' ', 'h', 'a', 'v', 'e'], "Boost"@, "¤(Boost)"@);
    assert(crate::text::witnessed(seq!['.', ' ', 'I', ' ', 'h', 'a', 'v', 'e'], "boost"@, seq![0, 0, 0, 0], 0)) by { reveal_with_fuel(crate::text::witnessed, 6); }
    crate::text::lemma_witnessed_none(seq!['.', ' ', 'I', ' ', 'h', 'a', 'v', 'e'], "boost"@, seq![0, 0, 0, 0], 0);
    crate::text::lemma_replace_none(seq!['.', ' ', 'I', ' ', 'h', 'a', 'v', 'e'], "boost"@, "¤(boost)"@);
    assert(crate::text::witnessed(seq!['.', ' ', 'I', ' ', 'h', 'a', 'v', 'e'], "experience"@, seq![], 0)) by { reveal_with_fuel(crate::text::witnessed, 2); }
    crate::text::lemma_witnessed_none(seq!['.', ' ', 'I', ' ', 'h', 'a', 'v', 'e'], "experience"@, seq![], 0);
    crate::text::lemma_replace_none(seq!['.', ' ', 'I', ' ', 'h', 'a', 'v', 'e'], "experience"@, "¤(xp)"@);
    assert(crate::text::witnessed(seq!['.', ' ', 'I', ' ', 'h', 'a', 'v', 'e'], "Experience"@, seq![], 0)) by { reveal_with_fuel(crate::text::witnessed, 2); }
    crate::text::lemma_witnessed_none(seq!['.', ' ', 'I', ' ', 'h', 'a', 'v', 'e'], "Experience"@, seq![], 0);
    crate::text::lemma_replace_none(seq!['.', ' ', 'I', ' ', 'h', 'a', 'v', 'e'], "Experience"@, "¤(Xp)"@);
    assert(crate::text::witnessed(seq!['.', ' ', 'I', ' ', 'h', 'a', 'v', 'e'], " mana "@, seq![0, 1, 0], 0)) by { reveal_with_fuel(crate::text::witnessed, 5); }
    crate::text::lemma_witnessed_none(seq!['.', ' ', 'I', ' ', 'h', 'a', 'v', 'e'], " mana "@, seq![0, 1, 0], 0);
    crate::text::lemma_replace_none(seq!['.', ' ', 'I', ' ', 'h', 'a', 'v', 'e'], " mana "@, " ¤(mana) "@);
}

/// What group 1 makes of the middle of phrase 17.
proof fn lemma_phrase_17_group_1()
    ensures
        phrase_group_1(seq!['.', ' ', 'I', ' ', 'h', 'a', 'v', 'e']) == seq!['.', ' ', 'I', ' ', 'h', 'a', 'v', 'e'],
{
    reveal(phrase_group_1);
    reveal_strlit(" Mana ");
    reveal_strlit(" Mana,");
    reveal_strlit(" Mana.");
    reveal_strlit(" mana,");
    reveal_strlit(" mana.");
    reveal_strlit(" ¤(Mana) ");
    reveal_strlit(" ¤(Mana),");
    reveal_strlit(" ¤(Mana).");
    reveal_strlit(" ¤(mana),");
    reveal_strlit(" ¤(mana).");
    reveal_strlit("I am");
    reveal_strlit("I'm");
    reveal_strlit("I’m");
    assert(crate::text::witnessed(seq!['.', ' ', 'I', ' ', 'h', 'a', 'v', 'e'], " mana."@, seq![0, 1, 0], 0)) by { reveal_with_fuel(crate::text::witnessed, 5); }
    crate::text::lemma_witnessed_none(seq!['.', ' ', 'I', ' ', 'h', 'a', 'v', 'e'], " mana."@, seq![0, 1, 0], 0);
    crate::text::lemma_replace_none(seq!['.', ' ', 'I', ' ', 'h', 'a', 'v', 'e'], " mana."@, " ¤(mana)."@);
    assert(crate::text::witnessed(seq!['.', ' ', 'I', ' ', 'h', 'a', 'v', 'e'], " mana,"@, seq![0, 1, 0], 0)) by { reveal_with_fuel(crate::text::witnessed, 5); }
    crate::text::lemma_witnessed_none(seq!['.', ' ', 'I', ' ', 'h', 'a', 'v', 'e'], " mana,"@, seq![0, 1, 0], 0);
    crate::text::lemma_replace_none(seq!['.', ' ', 'I', ' ', 'h', 'a', 'v', 'e'], " mana,"@, " ¤(mana),"@);
    assert(crate::text::witnessed(seq!['.', ' ', 'I', ' ', 'h', 'a', 'v', 'e'], " Mana "@, seq![0, 1, 0], 0)) by { reveal_with_fuel(crate::text::witnessed, 5); }
    crate::text::lemma_witnessed_none(seq!['.', ' ', 'I', ' ', 'h', 'a', 'v', 'e'], " Mana "@, seq![0, 1, 0], 0);
    crate::text::lemma_replace_none(seq!['.', ' ', 'I', ' ', 'h', 'a', 'v', 'e'], " Mana "@, " ¤(Mana) "@);
    assert(crate::text::witnessed(seq!['.', ' ', 'I', ' ', 'h', 'a', 'v', 'e'], " Mana."@, seq![0, 1, 0], 0)) by { reveal_with_fuel(crate::text::witnessed, 5); }
    crate::text::lemma_witnessed_none(seq!['.', ' ', 'I', ' ', 'h', 'a', 'v', 'e'], " Mana."@, seq![0, 1, 0], 0);
    crate::text::lemma_replace_none(seq!['.', ' ', 'I', ' ', 'h', 'a', 'v', 'e'], " Mana."@, " ¤(Mana)."@);
    assert(crate::text::witnessed(seq!['.', ' ', 'I', ' ', 'h', 'a', 'v', 'e'], " Mana,"@, seq![0, 1, 0], 0)) by { reveal_with_fuel(crate::text::witnessed, 5); }
    crate::text::lemma_witnessed_none(seq!['.', ' ', 'I', ' ', 'h', 'a', 'v', 'e'], " Mana,"@, seq![0, 1, 0], 0);
    crate::text::lemma_replace_none(seq!['.', ' ', 'I', ' ', 'h', 'a', 'v', 'e'], " Mana,"@, " ¤(Mana),"@);
    assert(crate::text::witnessed(seq!['.', ' ', 'I', ' ', 'h', 'a', 'v', 'e'], "I’m"@, seq![0, 0, 1, 0, 0, 0], 0)) by { reveal_with_fuel(crate::text::witnessed, 8); }
    crate::text::lemma_witnessed_none(seq!['.', ' ', 'I', ' ', 'h', 'a', 'v', 'e'], "I’m"@, seq![0, 0, 1, 0, 0, 0], 0);
    crate::text::lemma_replace_none(seq!['.', ' ', 'I', ' ', 'h', 'a', 'v', 'e'], "I’m"@, "I am"@);
    assert(crate::text::witnessed(seq!['.', ' ', 'I', ' ', 'h', 'a', 'v', 'e'], "I'm"@, seq![0, 0, 1, 0, 0, 0], 0)) by { reveal_with_fuel(crate::text::witnessed, 8); }
    crate::text::lemma_witnessed_none(seq!['.', ' ', 'I', ' ', 'h', 'a', 'v', 'e'], "I'm"@, seq![0, 0, 1, 0, 0, 0], 0);
    crate::text::lemma_replace_none(seq!['.', ' ', 'I', ' ', 'h', 'a', 'v', 'e'], "I'm"@, "I am"@);
}

/// What group 2 makes of the middle of phrase 17.
proof fn lemma_phrase_17_group_2()
    ensures
        phrase_group_2(seq!['.', ' ', 'I', ' ', 'h', 'a', 'v', 'e']) == seq!['.', ' ', '\u{a4}', '(', 'i', ' ', 'h', 'a', 'v', 'e', ')'],
{
    reveal(phrase_group_2);
    reveal_strlit(" I am ");
    reveal_strlit(" I have");
    reveal_strlit(" me ");
    reveal_strlit(" my ");
    reveal_strlit(" ¤(I have)");
    reveal_strlit(" ¤(i am) ");
    reveal_strlit(" ¤(i have)");
    reveal_strlit(" ¤(me) ");
    reveal_strlit(" ¤(my) ");
    reveal_strlit(". I am ");
    reveal_strlit(". I have");
    reveal_strlit(". My ");
    reveal_strlit(". ¤(I am) ");
    reveal_strlit(". ¤(My) ");
    assert(crate::text::witnessed(seq!['.', ' ', 'I', ' ', 'h', 'a', 'v', 'e'], ". I am "@, seq![4, 0], 0)) by { reveal_with_fuel(crate::text::witnessed, 4); }
    crate::text::lemma_witnessed_none(seq!['.', ' ', 'I', ' ', 'h', 'a', 'v', 'e'], ". I am "@, seq![4, 0], 0);
    crate::text::lemma_replace_none(seq!['.', ' ', 'I', ' ', 'h', 'a', 'v', 'e'], ". I am "@, ". ¤(I am) "@);
    assert(crate::text::witnessed(seq!['.', ' ', 'I', ' ', 'h', 'a', 'v', 'e'], " I am "@, seq![0, 3, 0], 0)) by { reveal_with_fuel(crate::text::witnessed, 5); }
    crate::text::lemma_witnessed_none(seq!['.', ' ', 'I', ' ', 'h', 'a', 'v', 'e'], " I am "@, seq![0, 3, 0], 0);
    crate::text::lemma_replace_none(seq!['.', ' ', 'I', ' ', 'h', 'a', 'v', 'e'], " I am "@, " ¤(i am) "@);
    assert(crate::text::witnessed_until(seq!['.', ' ', 'I', ' ', 'h', 'a', 'v', 'e'], " I have"@, seq![0], 0, 1)) by { reveal_with_fuel(crate::text::witnessed_until, 3); }
    assert(crate::text::witnessed(seq!['.', ' ', 'I', ' ', 'h', 'a', 'v', 'e'], " I have"@, seq![0, 0, 0, 0, 0, 0, 0, 0], 8)) by { reveal_with_fuel(crate::text::witnessed, 10); }
    assert(seq!['.', ' ', 'I', ' ', 'h', 'a', 'v', 'e'].subrange(1, 8) =~= " I have"@);
    crate::text::lemma_replace_once(seq!['.', ' ', 'I', ' ', 'h', 'a', 'v', 'e'], " I have"@, " ¤(i have)"@, 1, seq![0], seq![0, 0, 0, 0, 0, 0, 0, 0]);
    assert(seq!['.', ' ', 'I', ' ', 'h', 'a', 'v', 'e'].subrange(0, 1) + " ¤(i have)"@ + seq!['.', ' ', 'I', ' ', 'h', 'a', 'v', 'e'].subrange(8, 8) =~= seq!['.', ' ', '\u{a4}', '(', 'i', ' ', 'h', 'a', 'v', 'e', ')']);
    assert(crate::text::witnessed(seq!['.', ' ', '\u{a4}', '(', 'i', ' ', 'h', 'a', 'v', 'e', ')'], ". I have"@, seq![2, 0, 0, 0], 0)) by { reveal_with_fuel(crate::text::witnessed, 6); }
    crate::text::lemma_witnessed_none(seq!['.', ' ', '\u{a4}', '(', 'i', ' ', 'h', 'a', 'v', 'e', ')'], ". I have"@, seq![2, 0, 0, 0], 0);
    crate::text::lemma_replace_none(seq!['.', ' ', '\u{a4}', '(', 'i', ' ', 'h', 'a', 'v', 'e', ')'], ". I have"@, " ¤(I have)"@);
    assert(crate::text::witnessed(seq!['.', ' ', '\u{a4}', '(', 'i', ' ', 'h', 'a', 'v', 'e', ')'], " my "@, seq![0, 1, 0, 0, 0, 1, 0, 0], 0)) by { reveal_with_fuel(crate::text::witnessed, 10); }
    crate::text::lemma_witnessed_none(seq!['.', ' ', '\u{a4}', '(', 'i', ' ', 'h', 'a', 'v', 'e', ')'], " my "@, seq![0, 1, 0, 0, 0, 1, 0, 0], 0);
    crate::text::lemma_replace_none(seq!['.', ' ', '\u{a4}', '(', 'i', ' ', 'h', 'a', 'v', 'e', ')'], " my "@, " ¤(my) "@);
    assert(crate::text::witnessed(seq!['.', ' ', '\u{a4}', '(', 'i', ' ', 'h', 'a', 'v', 'e', ')'], ". My "@, seq![2, 0, 0, 0, 0, 0, 0], 0)) by { reveal_with_fuel(crate::text::witnessed, 9); }
    crate::text::lemma_witnessed_none(seq!['.', ' ', '\u{a4}', '(', 'i', ' ', 'h', 'a', 'v', 'e', ')'], ". My "@, seq![2, 0, 0, 0, 0, 0, 0], 0);
    crate::text::lemma_replace_none(seq!['.', ' ', '\u{a4}', '(', 'i', ' ', 'h', 'a', 'v', 'e', ')'], ". My "@, ". ¤(My) "@);
    assert(crate::text::witnessed(seq!['.', ' ', '\u{a4}', '(', 'i', ' ', 'h', 'a', 'v', 'e', ')'], " me "@, seq![0, 1, 0, 0, 0, 1, 0, 0], 0)) by { reveal_with_fuel(crate::text::witnessed, 10); }
    crate::text::lemma_witnessed_none(seq!['.', ' ', '\u{a4}', '(', 'i', ' ', 'h', 'a', 'v', 'e', ')'], " me "@, seq![0, 1, 0, 0, 0, 1, 0, 0], 0);
    crate::text::lemma_replace_none(seq!['.', ' ', '\u{a4}', '(', 'i', ' ', 'h', 'a', 'v', 'e', ')'], " me "@, " ¤(me) "@);
}

/// What group 3 makes of the middle of phrase 17.
proof fn lemma_phrase_17_group_3()
    ensures
        phrase_group_3(seq!['.', ' ', '\u{a4}', '(', 'i', ' ', 'h', 'a', 'v', 'e', ')']) == seq!['.', ' ', '\u{a4}', '(', 'i', ' ', 'h', 'a', 'v', 'e', ')'],
{
    reveal(phrase_group_3);
    reveal_strlit(" Me ");
    reveal_strlit(" Me,");
    reveal_strlit(" Me.");
    reveal_strlit(" me,");
    reveal_strlit(" me.");
    reveal_strlit(" ¤(Me) ");
    reveal_strlit(" ¤(Me),");
    reveal_strlit(" ¤(Me).");
    reveal_strlit(" ¤(me),");
    reveal_strlit(" ¤(me).");
    reveal_strlit(". I ");
    reveal_strlit(". ¤(I) ");
    reveal_strlit("\nI ");
    reveal_strlit("\n¤(I) ");
    assert(crate::text::witnessed(seq!['.', ' ', '\u{a4}', '(', 'i', ' ', 'h', 'a', 'v', 'e', ')'], " me,"@, seq![0, 1, 0, 0, 0, 1, 0, 0], 0)) by { reveal_with_fuel(crate::text::witnessed, 10); }
    crate::text::lemma_witnessed_none(seq!['.', ' ', '\u{a4}', '(', 'i', ' ', 'h', 'a', 'v', 'e', ')'], " me,"@, seq![0, 1, 0, 0, 0, 1, 0, 0], 0);
    crate::text::lemma_replace_none(seq!['.', ' ', '\u{a4}', '(', 'i', ' ', 'h', 'a', 'v', 'e', ')'], " me,"@, " ¤(me),"@);
    assert(crate::text::witnessed(seq!['.', ' ', '\u{a4}', '(', 'i', ' ', 'h', 'a', 'v', 'e', ')'], " me."@, seq![0, 1, 0, 0, 0, 1, 0, 0], 0)) by { reveal_with_fuel(crate::text::witnessed, 10); }
    crate::text::lemma_witnessed_none(seq!['.', ' ', '\u{a4}', '(', 'i', ' ', 'h', 'a', 'v', 'e', ')'], " me."@, seq![0, 1, 0, 0, 0, 1, 0, 0], 0);
    crate::text::lemma_replace_none(seq!['.', ' ', '\u{a4}', '(', 'i', ' ', 'h', 'a', 'v', 'e', ')'], " me."@, " ¤(me)."@);
    assert(crate::text::witnessed(seq!['.', ' ', '\u{a4}', '(', 'i', ' ', 'h', 'a', 'v', 'e', ')'], " Me "@, seq![0, 1, 0, 0, 0, 1, 0, 0], 0)) by { reveal_with_fuel(crate::text::witnessed, 10); }
    crate::text::lemma_witnessed_none(seq!['.', ' ', '\u{a4}', '(', 'i', ' ', 'h', 'a', 'v', 'e', ')'], " Me "@, seq![0, 1, 0, 0, 0, 1, 0, 0], 0);
    crate::text::lemma_replace_none(seq!['.', ' ', '\u{a4}', '(', 'i', ' ', 'h', 'a', 'v', 'e', ')'], " Me "@, " ¤(Me) "@);
    assert(crate::text::witnessed(seq!['.', ' ', '\u{a4}', '(', 'i', ' ', 'h', 'a', 'v', 'e', ')'], " Me,"@, seq![0, 1, 0, 0, 0, 1, 0, 0], 0)) by { reveal_with_fuel(crate::text::witnessed, 10); }
    crate::text::lemma_witnessed_none(seq!['.', ' ', '\u{a4}', '(', 'i', ' ', 'h', 'a', 'v', 'e', ')'], " Me,"@, seq![0, 1, 0, 0, 0, 1, 0, 0], 0);
    crate::text::lemma_replace_none(seq!['.', ' ', '\u{a4}', '(', 'i', ' ', 'h', 'a', 'v', 'e', ')'], " Me,"@, " ¤(Me),"@);
    assert(crate::text::witnessed(seq!['.', ' ', '\u{a4}', '(', 'i', ' ', 'h', 'a', 'v', 'e', ')'], " Me."@, seq![0, 1, 0, 0, 0, 1, 0, 0], 0)) by { reveal_with_fuel(crate::text::witnessed, 10); }
    crate::text::lemma_witnessed_none(seq!['.', ' ', '\u{a4}', '(', 'i', ' ', 'h', 'a', 'v', 'e', ')'], " Me."@, seq![0, 1, 0, 0, 0, 1, 0, 0], 0);
    crate::text::lemma_replace_none(seq!['.', ' ', '\u{a4}', '(', 'i', ' ', 'h', 'a', 'v', 'e', ')'], " Me."@, " ¤(Me)."@);
    assert(crate::text::witnessed(seq!['.', ' ', '\u{a4}', '(', 'i', ' ', 'h', 'a', 'v', 'e', ')'], "\nI "@, seq![0, 0, 0, 0, 0, 0, 0, 0, 0], 0)) by { reveal_with_fuel(crate::text::witnessed, 11); }
    crate::text::lemma_witnessed_none(seq!['.', ' ', '\u{a4}', '(', 'i', ' ', 'h', 'a', 'v', 'e', ')'], "\nI "@, seq![0, 0, 0, 0, 0, 0, 0, 0, 0], 0);
    crate::text::lemma_replace_none(seq!['.', ' ', '\u{a4}', '(', 'i', ' ', 'h', 'a', 'v', 'e', ')'], "\nI "@, "\n¤(I) "@);
    assert(crate::text::witnessed(seq!['.', ' ', '\u{a4}', '(', 'i', ' ', 'h', 'a', 'v', 'e', ')'], ". I "@, seq![2, 0, 0, 0, 0, 0, 0, 0], 0)) by { reveal_with_fuel(crate::text::witnessed, 10); }
    crate::text::lemma_witnessed_none(seq!['.', ' ', '\u{a4}', '(', 'i', ' ', 'h', 'a', 'v', 'e', ')'], ". I "@, seq![2, 0, 0, 0, 0, 0, 0, 0], 0);
    crate::text::lemma_replace_none(seq!['.', ' ', '\u{a4}', '(', 'i', ' ', 'h', 'a', 'v', 'e', ')'], ". I "@, ". ¤(I) "@);
}

/// What group 4 makes of the middle of phrase 17.
proof fn lemma_phrase_17_group_4()
    ensures
        phrase_group_4(seq!['.', ' ', '\u{a4}', '(', 'i', ' ', 'h', 'a', 'v', 'e', ')']) == seq!['.', ' ', '\u{a4}', '(', 'i', ' ', 'h', 'a', 'v', 'e', ')'],
{
    reveal(phrase_group_4);
    reveal_strlit(" I ");
    reveal_strlit(" I,");
    reveal_strlit(" I.");
    reveal_strlit(" ¤(i) ");
    reveal_strlit(" ¤(i),");
    reveal_strlit(" ¤(i).");
    reveal_strlit(". I,");
    reveal_strlit(". I.");
    reveal_strlit(". ¤(I),");
    reveal_strlit(". ¤(I). ");
    reveal_strlit("Cards ¤(I am) attached to");
    reveal_strlit("The card ¤(I am) attached to");
    reveal_strlit("cards ¤(I am) attached to");
    reveal_strlit("the card ¤(I am) attached to");
    assert(crate::text::witnessed(seq!['.', ' ', '\u{a4}', '(', 'i', ' ', 'h', 'a', 'v', 'e', ')'], ". I,"@, seq![2, 0, 0, 0, 0, 0, 0, 0], 0)) by { reveal_with_fuel(crate::text::witnessed, 10); }
    crate::text::lemma_witnessed_none(seq!['.', ' ', '\u{a4}', '(', 'i', ' ', 'h', 'a', 'v', 'e', ')'], ". I,"@, seq![2, 0, 0, 0, 0, 0, 0, 0], 0);
    crate::text::lemma_replace_none(seq!['.', ' ', '\u{a4}', '(', 'i', ' ', 'h', 'a', 'v', 'e', ')'], ". I,"@, ". ¤(I),"@);
    assert(crate::text::witnessed(seq!['.', ' ', '\u{a4}', '(', 'i', ' ', 'h', 'a', 'v', 'e', ')'], ". I."@, seq![2, 0, 0, 0, 0, 0, 0, 0], 0)) by { reveal_with_fuel(crate::text::witnessed, 10); }
    crate::text::lemma_witnessed_none(seq!['.', ' ', '\u{a4}', '(', 'i', ' ', 'h', 'a', 'v', 'e', ')'], ". I."@, seq![2, 0, 0, 0, 0, 0, 0, 0], 0);
    crate::text::lemma_replace_none(seq!['.', ' ', '\u{a4}', '(', 'i', ' ', 'h', 'a', 'v', 'e', ')'], ". I."@, ". ¤(I). "@);
    assert(crate::text::witnessed(seq!['.', ' ', '\u{a4}', '(', 'i', ' ', 'h', 'a', 'v', 'e', ')'], " I "@, seq![0, 1, 0, 0, 0, 1, 0, 0, 0], 0)) by { reveal_with_fuel(crate::text::witnessed, 11); }
    crate::text::lemma_witnessed_none(seq!['.', ' ', '\u{a4}', '(', 'i', ' ', 'h', 'a', 'v', 'e', ')'], " I "@, seq![0, 1, 0, 0, 0, 1, 0, 0, 0], 0);
    crate::text::lemma_replace_none(seq!['.', ' ', '\u{a4}', '(', 'i', ' ', 'h', 'a', 'v', 'e', ')'], " I "@, " ¤(i) "@);
    assert(crate::text::witnessed(seq!['.', ' ', '\u{a4}', '(', 'i', ' ', 'h', 'a', 'v', 'e', ')'], " I,"@, seq![0, 1, 0, 0, 0, 1, 0, 0, 0], 0)) by { reveal_with_fuel(crate::text::witnessed, 11); }
    crate::text::lemma_witnessed_none(seq!['.', ' ', '\u{a4}', '(', 'i', ' ', 'h', 'a', 'v', 'e', ')'], " I,"@, seq![0, 1, 0, 0, 0, 1, 0, 0, 0], 0);
    crate::text::lemma_replace_none(seq!['.', ' ', '\u{a4}', '(', 'i', ' ', 'h', 'a', 'v', 'e', ')'], " I,"@, " ¤(i),"@);
    assert(crate::text::witnessed(seq!['.', ' ', '\u{a4}', '(', 'i', ' ', 'h', 'a', 'v', 'e', ')'], " I."@, seq![0, 1, 0, 0, 0, 1, 0, 0, 0], 0)) by { reveal_with_fuel(crate::text::witnessed, 11); }
    crate::text::lemma_witnessed_none(seq!['.', ' ', '\u{a4}', '(', 'i', ' ', 'h', 'a', 'v', 'e', ')'], " I."@, seq![0, 1, 0, 0, 0, 1, 0, 0, 0], 0);
    crate::text::lemma_replace_none(seq!['.', ' ', '\u{a4}', '(', 'i', ' ', 'h', 'a', 'v', 'e', ')'], " I."@, " ¤(i)."@);
    assert(crate::text::witnessed(seq!['.', ' ', '\u{a4}', '(', 'i', ' ', 'h', 'a', 'v', 'e', ')'], "Cards ¤(I am) attached to"@, seq![], 0)) by { reveal_with_fuel(crate::text::witnessed, 2); }
    crate::text::lemma_witnessed_none(seq!['.', ' ', '\u{a4}', '(', 'i', ' ', 'h', 'a', 'v', 'e', ')'], "Cards ¤(I am) attached to"@, seq![], 0);
    crate::text::lemma_replace_none(seq!['.', ' ', '\u{a4}', '(', 'i', ' ', 'h', 'a', 'v', 'e', ')'], "Cards ¤(I am) attached to"@, "The card ¤(I am) attached to"@);
    assert(crate::text::witnessed(seq!['.', ' ', '\u{a4}', '(', 'i', ' ', 'h', 'a', 'v', 'e', ')'], "cards ¤(I am) attached to"@, seq![], 0)) by { reveal_with_fuel(crate::text::witnessed, 2); }
    crate::text::lemma_witnessed_none(seq!['.', ' ', '\u{a4}', '(', 'i', ' ', 'h', 'a', 'v', 'e', ')'], "cards ¤(I am) attached to"@, seq![], 0);
    crate::text::lemma_replace_none(seq!['.', ' ', '\u{a4}', '(', 'i', ' ', 'h', 'a', 'v', 'e', ')'], "cards ¤(I am) attached to"@, "the card ¤(I am) attached to"@);
}

/// Between digits, phrase 17 becomes what the card text makes of it.
proof fn lemma_phrase_17(x: Seq<char>, y: Seq<char>)
    requires
        all_digits(x),
        all_digits(y),
        trim(x + ". I have"@ + y) == x + ". I have"@ + y,
    ensures
        phrase_commands(x + ". I have"@ + y) == Some(x + seq!['.', ' ', '\u{a4}', '(', 'i', ' ', 'h', 'a', 'v', 'e', ')'] + y),
{
    reveal_strlit(". I have");
    assert(". I have"@ =~= seq!['.', ' ', 'I', ' ', 'h', 'a', 'v', 'e']);
    reveal_strlit("Card with");
    reveal_strlit("card with");
    reveal_strlit("Cards with");
    reveal_strlit("cards with");
    let m0 = seq!['.', ' ', 'I', ' ', 'h', 'a', 'v', 'e'];
    lemma_group_framed_0(x, m0, y);
    lemma_phrase_17_group_0();
    let m1 = phrase_group_0(m0);
    lemma_group_framed_1(x, m1, y);
    lemma_phrase_17_group_1();
    let m2 = phrase_group_1(m1);
    lemma_group_framed_2(x, m2, y);
    lemma_phrase_17_group_2();
    let m3 = phrase_group_2(m2);
    lemma_group_framed_3(x, m3, y);
    lemma_phrase_17_group_3();
    let m4 = phrase_group_3(m3);
    lemma_group_framed_4(x, m4, y);
    lemma_phrase_17_group_4();
    let m5 = phrase_group_4(m4);
    assert(crate::text::witnessed(seq!['.', ' ', '\u{a4}', '(', 'i', ' ', 'h', 'a', 'v', 'e', ')'], "Card with"@, seq![0, 0, 0], 0)) by { reveal_with_fuel(crate::text::witnessed, 5); }
    crate::text::lemma_witnessed_none(seq!['.', ' ', '\u{a4}', '(', 'i', ' ', 'h', 'a', 'v', 'e', ')'], "Card with"@, seq![0, 0, 0], 0);
    assert(digit_free("Card with"@));
    crate::text::lemma_replace_framed(x, seq!['.', ' ', '\u{a4}', '(', 'i', ' ', 'h', 'a', 'v', 'e', ')'], y, "Card with"@, "Card with"@);
    assert(with_marker(WithPhrase::Card) == "Card with"@);
    assert(crate::text::witnessed(seq!['.', ' ', '\u{a4}', '(', 'i', ' ', 'h', 'a', 'v', 'e', ')'], "card with"@, seq![0, 0, 0], 0)) by { reveal_with_fuel(crate::text::witnessed, 5); }
    crate::text::lemma_witnessed_none(seq!['.', ' ', '\u{a4}', '(', 'i', ' ', 'h', 'a', 'v', 'e', ')'], "card with"@, seq![0, 0, 0], 0);
    assert(digit_free("card with"@));
    crate::text::lemma_replace_framed(x, seq!['.', ' ', '\u{a4}', '(', 'i', ' ', 'h', 'a', 'v', 'e', ')'], y, "card with"@, "card with"@);
    assert(with_marker(WithPhrase::CardLower) == "card with"@);
    assert(crate::text::witnessed(seq!['.', ' ', '\u{a4}', '(', 'i', ' ', 'h', 'a', 'v', 'e', ')'], "Cards with"@, seq![0, 0], 0)) by { reveal_with_fuel(crate::text::witnessed, 4); }
    crate::text::lemma_witnessed_none(seq!['.', ' ', '\u{a4}', '(', 'i', ' ', 'h', 'a', 'v', 'e', ')'], "Cards with"@, seq![0, 0], 0);
    assert(digit_free("Cards with"@));
    crate::text::lemma_replace_framed(x, seq!['.', ' ', '\u{a4}', '(', 'i', ' ', 'h', 'a', 'v', 'e', ')'], y, "Cards with"@, "Cards with"@);
    assert(with_marker(WithPhrase::Cards) == "Cards with"@);
    assert(crate::text::witnessed(seq!['.', ' ', '\u{a4}', '(', 'i', ' ', 'h', 'a', 'v', 'e', ')'], "cards with"@, seq![0, 0], 0)) by { reveal_with_fuel(crate::text::witnessed, 4); }
    crate::text::lemma_witnessed_none(seq!['.', ' ', '\u{a4}', '(', 'i', ' ', 'h', 'a', 'v', 'e', ')'], "cards with"@, seq![0, 0], 0);
    assert(digit_free("cards with"@));
    crate::text::lemma_replace_framed(x, seq!['.', ' ', '\u{a4}', '(', 'i', ' ', 'h', 'a', 'v', 'e', ')'], y, "cards with"@, "cards with"@);
    assert(with_marker(WithPhrase::CardsLower) == "cards with"@);
}

/// What group 0 makes of the middle of phrase 18.
proof fn lemma_phrase_18_group_0()
    ensures
        phrase_group_0(seq![' ', 'm', 'y', ' ']) == seq![' ', 'm', 'y', ' '],
{
    reveal(phrase_group_0);
    reveal_strlit(" ");
    reveal_strlit("  ");
    reveal_strlit(" mana ");
    reveal_strlit(" ¤(mana) ");
    reveal_strlit("Boost");
    reveal_strlit("Experience");
    reveal_strlit("\n ");
    reveal_strlit("boost");
    reveal_strlit("experience");
    reveal_strlit("¤(Boost)");
    reveal_strlit("¤(Xp)");
    reveal_strlit("¤(boost)");
    reveal_strlit("¤(xp)");
    assert(crate::text::witnessed(seq![' ', 'm', 'y', ' '], "\n "@, seq![0, 0, 0], 0)) by { reveal_with_fuel(crate::text::witnessed, 5); }
    crate::text::lemma_witnessed_none(seq![' ', 'm', 'y', ' '], "\n "@, seq![0, 0, 0], 0);
    crate::text::lemma_replace_none(seq![' ', 'm', 'y', ' '], "\n "@, " "@);
    assert(crate::text::witnessed(seq![' ', 'm', 'y', ' '], "  "@, seq![1, 0, 0], 0)) by { reveal_with_fuel(crate::text::witnessed, 5); }
    crate::text::lemma_witnessed_none(seq![' ', 'm', 'y', ' '], "  "@, seq![1, 0, 0], 0);
    crate::text::lemma_replace_none(seq![' ', 'm', 'y', ' '], "  "@, " "@);
    assert(crate::text::witnessed(seq![' ', 'm', 'y', ' '], "Boost"@, seq![], 0)) by { reveal_with_fuel(crate::text::witnessed, 2); }
    crate::text::lemma_witnessed_none(seq![' ', 'm', 'y', ' '], "Boost"@, seq![], 0);
    crate::text::lemma_replace_none(seq![' ', 'm', 'y', ' '], "Boost"@, "¤(Boost)"@);
    assert(crate::text::witnessed(seq![' ', 'm', 'y', ' '], "boost"@, seq![], 0)) by { reveal_with_fuel(crate::text::witnessed, 2); }
    crate::text::lemma_witnessed_none(seq![' ', 'm', 'y', ' '], "boost"@, seq![], 0);
    crate::text::lemma_replace_none(seq![' ', 'm', 'y', ' '], "boost"@, "¤(boost)"@);
    assert(crate::text::witnessed(seq![' ', 'm', 'y', ' '], "experience"@, seq![], 0)) by { reveal_with_fuel(crate::text::witnessed, 2); }
    crate::text::lemma_witnessed_none(seq![' ', 'm', 'y', ' '], "experience"@, seq![], 0);
    crate::text::lemma_replace_none(seq![' ', 'm', 'y', ' '], "experience"@, "¤(xp)"@);
    assert(crate::text::witnessed(seq![' ', 'm', 'y', ' '], "Experience"@, seq![], 0)) by { reveal_with_fuel(crate::text::witnessed, 2); }
    crate::text::lemma_witnessed_none(seq![' ', 'm', 'y', ' '], "Experience"@, seq![], 0);
    crate::text::lemma_replace_none(seq![' ', 'm', 'y', ' '], "Experience"@, "¤(Xp)"@);
    assert(crate::text::witnessed(seq![' ', 'm', 'y', ' '], " mana "@, seq![], 0)) by { reveal_with_fuel(crate::text::witnessed, 2); }
    crate::text::lemma_witnessed_none(seq![' ', 'm', 'y', ' '], " mana "@, seq![], 0);
    crate::text::lemma_replace_none(seq![' ', 'm', 'y', ' '], " mana "@, " ¤(mana) "@);
}

/// What group 1 makes of the middle of phrase 18.
proof fn lemma_phrase_18_group_1()
    ensures
        phrase_group_1(seq![' ', 'm', 'y', ' ']) == seq![' ', 'm', 'y', ' '],
{
    reveal(phrase_group_1);
    reveal_strlit(" Mana ");
    reveal_strlit(" Mana,");
    reveal_strlit(" Mana.");
    reveal_strlit(" mana,");
    reveal_strlit(" mana.");
    reveal_strlit(" ¤(Mana) ");
    reveal_strlit(" ¤(Mana),");
    reveal_strlit(" ¤(Mana).");
    reveal_strlit(" ¤(mana),");
    reveal_strlit(" ¤(mana).");
    reveal_strlit("I am");
    reveal_strlit("I'm");
    reveal_strlit("I’m");
    assert(crate::text::witnessed(seq![' ', 'm', 'y', ' '], " mana."@, seq![], 0)) by { reveal_with_fuel(crate::text::witnessed, 2); }
    crate::text::lemma_witnessed_none(seq![' ', 'm', 'y', ' '], " mana."@, seq![], 0);
    crate::text::lemma_replace_none(seq![' ', 'm', 'y', ' '], " mana."@, " ¤(mana)."@);
    assert(crate::text::witnessed(seq![' ', 'm', 'y', ' '], " mana,"@, seq![], 0)) by { reveal_with_fuel(crate::text::witnessed, 2); }
    crate::text::lemma_witnessed_none(seq![' ', 'm', 'y', ' '], " mana,"@, seq![], 0);
    crate::text::lemma_replace_none(seq![' ', 'm', 'y', ' '], " mana,"@, " ¤(mana),"@);
    assert(crate::text::witnessed(seq![' ', 'm', 'y', ' '], " Mana "@, seq![], 0)) by { reveal_with_fuel(crate::text::witnessed, 2); }
    crate::text::lemma_witnessed_none(seq![' ', 'm', 'y', ' '], " Mana "@, seq![], 0);
    crate::text::lemma_replace_none(seq![' ', 'm', 'y', ' '], " Mana "@, " ¤(Mana) "@);
    assert(crate::text::witnessed(seq![' ', 'm', 'y', ' '], " Mana."@, seq![], 0)) by { reveal_with_fuel(crate::text::witnessed, 2); }
    crate::text::lemma_witnessed_none(seq![' ', 'm', 'y', ' '], " Mana."@, seq![], 0);
    crate::text::lemma_replace_none(seq![' ', 'm', 'y', ' '], " Mana."@, " ¤(Mana)."@);
    assert(crate::text::witnessed(seq![' ', 'm', 'y', ' '], " Mana,"@, seq![], 0)) by { reveal_with_fuel(crate::text::witnessed, 2); }
    crate::text::lemma_witnessed_none(seq![' ', 'm', 'y', ' '], " Mana,"@, seq![], 0);
    crate::text::lemma_replace_none(seq![' ', 'm', 'y', ' '], " Mana,"@, " ¤(Mana),"@);
    assert(crate::text::witnessed(seq![' ', 'm', 'y', ' '], "I’m"@, seq![0, 0], 0)) by { reveal_with_fuel(crate::text::witnessed, 4); }
    crate::text::lemma_witnessed_none(seq![' ', 'm', 'y', ' '], "I’m"@, seq![0, 0], 0);
    crate::text::lemma_replace_none(seq![' ', 'm', 'y', ' '], "I’m"@, "I am"@);
    assert(crate::text::witnessed(seq![' ', 'm', 'y', ' '], "I'm"@, seq![0, 0], 0)) by { reveal_with_fuel(crate::text::witnessed, 4); }
    crate::text::lemma_witnessed_none(seq![' ', 'm', 'y', ' '], "I'm"@, seq![0, 0], 0);
    crate::text::lemma_replace_none(seq![' ', 'm', 'y', ' '], "I'm"@, "I am"@);
}

/// What group 2 makes of the middle of phrase 18.
proof fn lemma_phrase_18_group_2()
    ensures
        phrase_group_2(seq![' ', 'm', 'y', ' ']) == seq![' ', '\u{a4}', '(', 'm', 'y', ')', ' '],
{
    reveal(phrase_group_2);
    reveal_strlit(" I am ");
    reveal_strlit(" I have");
    reveal_strlit(" me ");
    reveal_strlit(" my ");
    reveal_strlit(" ¤(I have)");
    reveal_strlit(" ¤(i am) ");
    reveal_strlit(" ¤(i have)");
    reveal_strlit(" ¤(me) ");
    reveal_strlit(" ¤(my) ");
    reveal_strlit(". I am ");
    reveal_strlit(". I have");
    reveal_strlit(". My ");
    reveal_strlit(". ¤(I am) ");
    reveal_strlit(". ¤(My) ");
    assert(crate::text::witnessed(seq![' ', 'm', 'y', ' '], ". I am "@, seq![], 0)) by { reveal_with_fuel(crate::text::witnessed, 2); }
    crate::text::lemma_witnessed_none(seq![' ', 'm', 'y', ' '], ". I am "@, seq![], 0);
    crate::text::lemma_replace_none(seq![' ', 'm', 'y', ' '], ". I am "@, ". ¤(I am) "@);
    assert(crate::text::witnessed(seq![' ', 'm', 'y', ' '], " I am "@, seq![], 0)) by { reveal_with_fuel(crate::text::witnessed, 2); }
    crate::text::lemma_witnessed_none(seq![' ', 'm', 'y', ' '], " I am "@, seq![], 0);
    crate::text::lemma_replace_none(seq![' ', 'm', 'y', ' '], " I am "@, " ¤(i am) "@);
    assert(crate::text::witnessed(seq![' ', 'm', 'y', ' '], " I have"@, seq![], 0)) by { reveal_with_fuel(crate::text::witnessed, 2); }
    crate::text::lemma_witnessed_none(seq![' ', 'm', 'y', ' '], " I have"@, seq![], 0);
    crate::text::lemma_replace_none(seq![' ', 'm', 'y', ' '], " I have"@, " ¤(i have)"@);
    assert(crate::text::witnessed(seq![' ', 'm', 'y', ' '], ". I have"@, seq![], 0)) by { reveal_with_fuel(crate::text::witnessed, 2); }
    crate::text::lemma_witnessed_none(seq![' ', 'm', 'y', ' '], ". I have"@, seq![], 0);
    crate::text::lemma_replace_none(seq![' ', 'm', 'y', ' '], ". I have"@, " ¤(I have)"@);
    assert(crate::text::witnessed_until(seq![' ', 'm', 'y', ' '], " my "@, seq![], 0, 0)) by { reveal_with_fuel(crate::text::witnessed_until, 2); }
    assert(crate::text::witnessed(seq![' ', 'm', 'y', ' '], " my "@, seq![0, 0, 0, 0], 4)) by { reveal_with_fuel(crate::text::witnessed, 6); }
    assert(seq![' ', 'm', 'y', ' '].subrange(0, 4) =~= " my "@);
    crate::text::lemma_replace_once(seq![' ', 'm', 'y', ' '], " my "@, " ¤(my) "@, 0, seq![], seq![0, 0, 0, 0]);
    assert(seq![' ', 'm', 'y', ' '].subrange(0, 0) + " ¤(my) "@ + seq![' ', 'm', 'y', ' '].subrange(4, 4) =~= seq![' ', '\u{a4}', '(', 'm', 'y', ')', ' ']);
    assert(crate::text::witnessed(seq![' ', '\u{a4}', '(', 'm', 'y', ')', ' '], ". My "@, seq![0, 0, 0], 0)) by { reveal_with_fuel(crate::text::witnessed, 5); }
    crate::text::lemma_witnessed_none(seq![' ', '\u{a4}', '(', 'm', 'y', ')', ' '], ". My "@, seq![0, 0, 0], 0);
    crate::text::lemma_replace_none(seq![' ', '\u{a4}', '(', 'm', 'y', ')', ' '], ". My "@, ". ¤(My) "@);
    assert(crate::text::witnessed(seq![' ', '\u{a4}', '(', 'm', 'y', ')', ' '], " me "@, seq![1, 0, 0, 0], 0)) by { reveal_with_fuel(crate::text::witnessed, 6); }
    crate::text::lemma_witnessed_none(seq![' ', '\u{a4}', '(', 'm', 'y', ')', ' '], " me "@, seq![1, 0, 0, 0], 0);
    crate::text::lemma_replace_none(seq![' ', '\u{a4}', '(', 'm', 'y', ')', ' '], " me "@, " ¤(me) "@);
}

/// What group 3 makes of the middle of phrase 18.
proof fn lemma_phrase_18_group_3()
    ensures
        phrase_group_3(seq![' ', '\u{a4}', '(', 'm', 'y', ')', ' ']) == seq![' ', '\u{a4}', '(', 'm', 'y', ')', ' '],
{
    reveal(phrase_group_3);
    reveal_strlit(" Me ");
    reveal_strlit(" Me,");
    reveal_strlit(" Me.");
    reveal_strlit(" me,");
    reveal_strlit(" me.");
    reveal_strlit(" ¤(Me) ");
    reveal_strlit(" ¤(Me),");
    reveal_strlit(" ¤(Me).");
    reveal_strlit(" ¤(me),");
    reveal_strlit(" ¤(me).");
    reveal_strlit(". I ");
    reveal_strlit(". ¤(I) ");
    reveal_strlit("\nI ");
    reveal_strlit("\n¤(I) ");
    assert(crate::text::witnessed(seq![' ', '\u{a4}', '(', 'm', 'y', ')', ' '], " me,"@, seq![1, 0, 0, 0], 0)) by { reveal_with_fuel(crate::text::witnessed, 6); }
    crate::text::lemma_witnessed_none(seq![' ', '\u{a4}', '(', 'm', 'y', ')', ' '], " me,"@, seq![1, 0, 0, 0], 0);
    crate::text::lemma_replace_none(seq![' ', '\u{a4}', '(', 'm', 'y', ')', ' '], " me,"@, " ¤(me),"@);
    assert(crate::text::witnessed(seq![' ', '\u{a4}', '(', 'm', 'y', ')', ' '], " me."@, seq![1, 0, 0, 0], 0)) by { reveal_with_fuel(crate::text::witnessed, 6); }
    crate::text::lemma_witnessed_none(seq![' ', '\u{a4}', '(', 'm', 'y', ')', ' '], " me."@, seq![1, 0, 0, 0], 0);
    crate::text::lemma_replace_none(seq![' ', '\u{a4}', '(', 'm', 'y', ')', ' '], " me."@, " ¤(me)."@);
    assert(crate::text::witnessed(seq![' ', '\u{a4}', '(', 'm', 'y', ')', ' '], " Me "@, seq![1, 0, 0, 0], 0)) by { reveal_with_fuel(crate::text::witnessed, 6); }
    crate::text::lemma_witnessed_none(seq![' ', '\u{a4}', '(', 'm', 'y', ')', ' '], " Me "@, seq![1, 0, 0, 0], 0);
    crate::text::lemma_replace_none(seq![' ', '\u{a4}', '(', 'm', 'y', ')', ' '], " Me "@, " ¤(Me) "@);
    assert(crate::text::witnessed(seq![' ', '\u{a4}', '(', 'm', 'y', ')', ' '], " Me,"@, seq![1, 0, 0, 0], 0)) by { reveal_with_fuel(crate::text::witnessed, 6); }
    crate::text::lemma_witnessed_none(seq![' ', '\u{a4}', '(', 'm', 'y', ')', ' '], " Me,"@, seq![1, 0, 0, 0], 0);
    crate::text::lemma_replace_none(seq![' ', '\u{a4}', '(', 'm', 'y', ')', ' '], " Me,"@, " ¤(Me),"@);
    assert(crate::text::witnessed(seq![' ', '\u{a4}', '(', 'm', 'y', ')', ' '], " Me."@, seq![1, 0, 0, 0], 0)) by { reveal_with_fuel(crate::text::witnessed, 6); }
    crate::text::lemma_witnessed_none(seq![' ', '\u{a4}', '(', 'm', 'y', ')', ' '], " Me."@, seq![1, 0, 0, 0], 0);
    crate::text::lemma_replace_none(seq![' ', '\u{a4}', '(', 'm', 'y', ')', ' '], " Me."@, " ¤(Me)."@);
    assert(crate::text::witnessed(seq![' ', '\u{a4}', '(', 'm', 'y', ')', ' '], "\nI "@, seq![0, 0, 0, 0, 0], 0)) by { reveal_with_fuel(crate::text::witnessed, 7); }
    crate::text::lemma_witnessed_none(seq![' ', '\u{a4}', '(', 'm', 'y', ')', ' '], "\nI "@, seq![0, 0, 0, 0, 0], 0);
    crate::text::lemma_replace_none(seq![' ', '\u{a4}', '(', 'm', 'y', ')', ' '], "\nI "@, "\n¤(I) "@);
    assert(crate::text::witnessed(seq![' ', '\u{a4}', '(', 'm', 'y', ')', ' '], ". I "@, seq![0, 0, 0, 0], 0)) by { reveal_with_fuel(crate::text::witnessed, 6); }
    crate::text::lemma_witnessed_none(seq![' ', '\u{a4}', '(', 'm', 'y', ')', ' '], ". I "@, seq![0, 0, 0, 0], 0);
    crate::text::lemma_replace_none(seq![' ', '\u{a4}', '(', 'm', 'y', ')', ' '], ". I "@, ". ¤(I) "@);
}

/// What group 4 makes of the middle of phrase 18.
proof fn lemma_phrase_18_group_4()
    ensures
        phrase_group_4(seq![' ', '\u{a4}', '(', 'm', 'y', ')', ' ']) == seq![' ', '\u{a4}', '(', 'm', 'y', ')', ' '],
{
    reveal(phrase_group_4);
    reveal_strlit(" I ");
    reveal_strlit(" I,");
    reveal_strlit(" I.");
    reveal_strlit(" ¤(i) ");
    reveal_strlit(" ¤(i),");
    reveal_strlit(" ¤(i).");
    reveal_strlit(". I,");
    reveal_strlit(". I.");
    reveal_strlit(". ¤(I),");
    reveal_strlit(". ¤(I). ");
    reveal_strlit("Cards ¤(I am) attached to");
    reveal_strlit("The card ¤(I am) attached to");
    reveal_strlit("cards ¤(I am) attached to");
    reveal_strlit("the card ¤(I am) attached to");
    assert(crate::text::witnessed(seq![' ', '\u{a4}', '(', 'm', 'y', ')', ' '], ". I,"@, seq![0, 0, 0, 0], 0)) by { reveal_with_fuel(crate::text::witnessed, 6); }
    crate::text::lemma_witnessed_none(seq![' ', '\u{a4}', '(', 'm', 'y', ')', ' '], ". I,"@, seq![0, 0, 0, 0], 0);
    crate::text::lemma_replace_none(seq![' ', '\u{a4}', '(', 'm', 'y', ')', ' '], ". I,"@, ". ¤(I),"@);
    assert(crate::text::witnessed(seq![' ', '\u{a4}', '(', 'm', 'y', ')', ' '], ". I."@, seq![0, 0, 0, 0], 0)) by { reveal_with_fuel(crate::text::witnessed, 6); }
    crate::text::lemma_witnessed_none(seq![' ', '\u{a4}', '(', 'm', 'y', ')', ' '], ". I."@, seq![0, 0, 0, 0], 0);
    crate::text::lemma_replace_none(seq![' ', '\u{a4}', '(', 'm', 'y', ')', ' '], ". I."@, ". ¤(I). "@);
    assert(crate::text::witnessed(seq![' ', '\u{a4}', '(', 'm', 'y', ')', ' '], " I "@, seq![1, 0, 0, 0, 0], 0)) by { reveal_with_fuel(crate::text::witnessed, 7); }
    crate::text::lemma_witnessed_none(seq![' ', '\u{a4}', '(', 'm', 'y', ')', ' '], " I "@, seq![1, 0, 0, 0, 0], 0);
    crate::text::lemma_replace_none(seq![' ', '\u{a4}', '(', 'm', 'y', ')', ' '], " I "@, " ¤(i) "@);
    assert(crate::text::witnessed(seq![' ', '\u{a4}', '(', 'm', 'y', ')', ' '], " I,"@, seq![1, 0, 0, 0, 0], 0)) by { reveal_with_fuel(crate::text::witnessed, 7); }
    crate::text::lemma_witnessed_none(seq![' ', '\u{a4}', '(', 'm', 'y', ')', ' '], " I,"@, seq![1, 0, 0, 0, 0], 0);
    crate::text::lemma_replace_none(seq![' ', '\u{a4}', '(', 'm', 'y', ')', ' '], " I,"@, " ¤(i),"@);
    assert(crate::text::witnessed(seq![' ', '\u{a4}', '(', 'm', 'y', ')', ' '], " I."@, seq![1, 0, 0, 0, 0], 0)) by { reveal_with_fuel(crate::text::witnessed, 7); }
    crate::text::lemma_witnessed_none(seq![' ', '\u{a4}', '(', 'm', 'y', ')', ' '], " I."@, seq![1, 0, 0, 0, 0], 0);
    crate::text::lemma_replace_none(seq![' ', '\u{a4}', '(', 'm', 'y', ')', ' '], " I."@, " ¤(i)."@);
    assert(crate::text::witnessed(seq![' ', '\u{a4}', '(', 'm', 'y', ')', ' '], "Cards ¤(I am) attached to"@, seq![], 0)) by { reveal_with_fuel(crate::text::witnessed, 2); }
    crate::text::lemma_witnessed_none(seq![' ', '\u{a4}', '(', 'm', 'y', ')', ' '], "Cards ¤(I am) attached to"@, seq![], 0);
    crate::text::lemma_replace_none(seq![' ', '\u{a4}', '(', 'm', 'y', ')', ' '], "Cards ¤(I am) attached to"@, "The card ¤(I am) attached to"@);
    assert(crate::text::witnessed(seq![' ', '\u{a4}', '(', 'm', 'y', ')', ' '], "cards ¤(I am) attached to"@, seq![], 0)) by { reveal_with_fuel(crate::text::witnessed, 2); }
    crate::text::lemma_witnessed_none(seq![' ', '\u{a4}', '(', 'm', 'y', ')', ' '], "cards ¤(I am) attached to"@, seq![], 0);
    crate::text::lemma_replace_none(seq![' ', '\u{a4}', '(', 'm', 'y', ')', ' '], "cards ¤(I am) attached to"@, "the card ¤(I am) attached to"@);
}

/// Between digits, phrase 18 becomes what the card text makes of it.
proof fn lemma_phrase_18(x: Seq<char>, y: Seq<char>)
    requires
        all_digits(x),
        all_digits(y),
        trim(x + " my "@ + y) == x + " my "@ + y,
    ensures
        phrase_commands(x + " my "@ + y) == Some(x + seq![' ', '\u{a4}', '(', 'm', 'y', ')', ' '] + y),
{
    reveal_strlit(" my ");
    assert(" my "@ =~= seq![' ', 'm', 'y', ' ']);
    reveal_strlit("Card with");
    reveal_strlit("card with");
    reveal_strlit("Cards with");
    reveal_strlit("cards with");
    let m0 = seq![' ', 'm', 'y', ' '];
    lemma_group_framed_0(x, m0, y);
    lemma_phrase_18_group_0();
    let m1 = phrase_group_0(m0);
    lemma_group_framed_1(x, m1, y);
    lemma_phrase_18_group_1();
    let m2 = phrase_group_1(m1);
    lemma_group_framed_2(x, m2, y);
    lemma_phrase_18_group_2();
    let m3 = phrase_group_2(m2);
    lemma_group_framed_3(x, m3, y);
    lemma_phrase_18_group_3();
    let m4 = phrase_group_3(m3);
    lemma_group_framed_4(x, m4, y);
    lemma_phrase_18_group_4();
    let m5 = phrase_group_4(m4);
    assert(crate::text::witnessed(seq![' ', '\u{a4}', '(', 'm', 'y', ')', ' '], "Card with"@, seq![], 0)) by { reveal_with_fuel(crate::text::witnessed, 2); }
    crate::text::lemma_witnessed_none(seq![' ', '\u{a4}', '(', 'm', 'y', ')', ' '], "Card with"@, seq![], 0);
    assert(digit_free("Card with"@));
    crate::text::lemma_replace_framed(x, seq![' ', '\u{a4}', '(', 'm', 'y', ')', ' '], y, "Card with"@, "Card with"@);
    assert(with_marker(WithPhrase::Card) == "Card with"@);
    assert(crate::text::witnessed(seq![' ', '\u{a4}', '(', 'm', 'y', ')', ' '], "card with"@, seq![], 0)) by { reveal_with_fuel(crate::text::witnessed, 2); }
    crate::text::lemma_witnessed_none(seq![' ', '\u{a4}', '(', 'm', 'y', ')', ' '], "card with"@, seq![], 0);
    assert(digit_free("card with"@));
    crate::text::lemma_replace_framed(x, seq![' ', '\u{a4}', '(', 'm', 'y', ')', ' '], y, "card with"@, "card with"@);
    assert(with_marker(WithPhrase::CardLower) == "card with"@);
    assert(crate::text::witnessed(seq![' ', '\u{a4}', '(', 'm', 'y', ')', ' '], "Cards with"@, seq![], 0)) by { reveal_with_fuel(crate::text::witnessed, 2); }
    crate::text::lemma_witnessed_none(seq![' ', '\u{a4}', '(', 'm', 'y', ')', ' '], "Cards with"@, seq![], 0);
    assert(digit_free("Cards with"@));
    crate::text::lemma_replace_framed(x, seq![' ', '\u{a4}', '(', 'm', 'y', ')', ' '], y, "Cards with"@, "Cards with"@);
    assert(with_marker(WithPhrase::Cards) == "Cards with"@);
    assert(crate::text::witnessed(seq![' ', '\u{a4}', '(', 'm', 'y', ')', ' '], "cards with"@, seq![], 0)) by { reveal_with_fuel(crate::text::witnessed, 2); }
    crate::text::lemma_witnessed_none(seq![' ', '\u{a4}', '(', 'm', 'y', ')', ' '], "cards with"@, seq![], 0);
    assert(digit_free("cards with"@));
    crate::text::lemma_replace_framed(x, seq![' ', '\u{a4}', '(', 'm', 'y', ')', ' '], y, "cards with"@, "cards with"@);
    assert(with_marker(WithPhrase::CardsLower) == "cards with"@);
}

/// What group 0 makes of the middle of phrase 19.
proof fn lemma_phrase_19_group_0()
    ensures
        phrase_group_0(seq!['.', ' ', 'M', 'y', ' ']) == seq!['.', ' ', 'M', 'y', ' '],
{
    reveal(phrase_group_0);
    reveal_strlit(" ");
    reveal_strlit("  ");
    reveal_strlit(" mana ");
    reveal_strlit(" ¤(mana) ");
    reveal_strlit("Boost");
    reveal_strlit("Experience");
    reveal_strlit("\n ");
    reveal_strlit("boost");
    reveal_strlit("experience");
    reveal_strlit("¤(Boost)");
    reveal_strlit("¤(Xp)");
    reveal_strlit("¤(boost)");
    reveal_strlit("¤(xp)");
    assert(crate::text::witnessed(seq!['.', ' ', 'M', 'y', ' '], "\n "@, seq![0, 0, 0, 0], 0)) by { reveal_with_fuel(crate::text::witnessed, 6); }
    crate::text::lemma_witnessed_none(seq!['.', ' ', 'M', 'y', ' '], "\n "@, seq![0, 0, 0, 0], 0);
    crate::text::lemma_replace_none(seq!['.', ' ', 'M', 'y', ' '], "\n "@, " "@);
    assert(crate::text::witnessed(seq!['.', ' ', 'M', 'y', ' '], "  "@, seq![0, 1, 0, 0], 0)) by { reveal_with_fuel(crate::text::witnessed, 6); }
    crate::text::lemma_witnessed_none(seq!['.', ' ', 'M', 'y', ' '], "  "@, seq![0, 1, 0, 0], 0);
    crate::text::lemma_replace_none(seq!['.', ' ', 'M', 'y', ' '], "  "@, " "@);
    assert(crate::text::witnessed(seq!['.', ' ', 'M', 'y', ' '], "Boost"@, seq![0], 0)) by { reveal_with_fuel(crate::text::witnessed, 3); }
    crate::text::lemma_witnessed_none(seq!['.', ' ', 'M', 'y', ' '], "Boost"@, seq![0], 0);
    crate::text::lemma_replace_none(seq!['.', ' ', 'M', 'y', ' '], "Boost"@, "¤(Boost)"@);
    assert(crate::text::witnessed(seq!['.', ' ', 'M', 'y', ' '], "boost"@, seq![0], 0)) by { reveal_with_fuel(crate::text::witnessed, 3); }
    crate::text::lemma_witnessed_none(seq!['.', ' ', 'M', 'y', ' '], "boost"@, seq![0], 0);
    crate::text::lemma_replace_none(seq!['.', ' ', 'M', 'y', ' '], "boost"@, "¤(boost)"@);
    assert(crate::text::witnessed(seq!['.', ' ', 'M', 'y', ' '], "experience"@, seq![], 0)) by { reveal_with_fuel(crate::text::witnessed, 2); }
    crate::text::lemma_witnessed_none(seq!['.', ' ', 'M', 'y', ' '], "experience"@, seq![], 0);
    crate::text::lemma_replace_none(seq!['.', ' ', 'M', 'y', ' '], "experience"@, "¤(xp)"@);
    assert(crate::text::witnessed(seq!['.', ' ', 'M', 'y', ' '], "Experience"@, seq![], 0)) by { reveal_with_fuel(crate::text::witnessed, 2); }
    crate::text::lemma_witnessed_none(seq!['.', ' ', 'M', 'y', ' '], "Experience"@, seq![], 0);
    crate::text::lemma_replace_none(seq!['.', ' ', 'M', 'y', ' '], "Experience"@, "¤(Xp)"@);
    assert(crate::text::witnessed(seq!['.', ' ', 'M', 'y', ' '], " mana "@, seq![], 0)) by { reveal_with_fuel(crate::text::witnessed, 2); }
    crate::text::lemma_witnessed_none(seq!['.', ' ', 'M', 'y', ' '], " mana "@, seq![], 0);
    crate::text::lemma_replace_none(seq!['.', ' ', 'M', 'y', ' '], " mana "@, " ¤(mana) "@);
}

/// What group 1 makes of the middle of phrase 19.
proof fn lemma_phrase_19_group_1()
    ensures
        phrase_group_1(seq!['.', ' ', 'M', 'y', ' ']) == seq!['.', ' ', 'M', 'y', ' '],
{
    reveal(phrase_group_1);
    reveal_strlit(" Mana ");
    reveal_strlit(" Mana,");
    reveal_strlit(" Mana.");
    reveal_strlit(" mana,");
    reveal_strlit(" mana.");
    reveal_strlit(" ¤(Mana) ");
    reveal_strlit(" ¤(Mana),");
    reveal_strlit(" ¤(Mana).");
    reveal_strlit(" ¤(mana),");
    reveal_strlit(" ¤(mana).");
    reveal_strlit("I am");
    reveal_strlit("I'm");
    reveal_strlit("I’m");
    assert(crate::text::witnessed(seq!['.', ' ', 'M', 'y', ' '], " mana."@, seq![], 0)) by { reveal_with_fuel(crate::text::witnessed, 2); }
    crate::text::lemma_witnessed_none(seq!['.', ' ', 'M', 'y', ' '], " mana."@, seq![], 0);
    crate::text::lemma_replace_none(seq!['.', ' ', 'M', 'y', ' '], " mana."@, " ¤(mana)."@);
    assert(crate::text::witnessed(seq!['.', ' ', 'M', 'y', ' '], " mana,"@, seq![], 0)) by { reveal_with_fuel(crate::text::witnessed, 2); }
    crate::text::lemma_witnessed_none(seq!['.', ' ', 'M', 'y', ' '], " mana,"@, seq![], 0);
    crate::text::lemma_replace_none(seq!['.', ' ', 'M', 'y', ' '], " mana,"@, " ¤(mana),"@);
    assert(crate::text::witnessed(seq!['.', ' ', 'M', 'y', ' '], " Mana "@, seq![], 0)) by { reveal_with_fuel(crate::text::witnessed, 2); }
    crate::text::lemma_witnessed_none(seq!['.', ' ', 'M', 'y', ' '], " Mana "@, seq![], 0);
    crate::text::lemma_replace_none(seq!['.', ' ', 'M', 'y', ' '], " Mana "@, " ¤(Mana) "@);
    assert(crate::text::witnessed(seq!['.', ' ', 'M', 'y', ' '], " Mana."@, seq![], 0)) by { reveal_with_fuel(crate::text::witnessed, 2); }
    crate::text::lemma_witnessed_none(seq!['.', ' ', 'M', 'y', ' '], " Mana."@, seq![], 0);
    crate::text::lemma_replace_none(seq!['.', ' ', 'M', 'y', ' '], " Mana."@, " ¤(Mana)."@);
    assert(crate::text::witnessed(seq!['.', ' ', 'M', 'y', ' '], " Mana,"@, seq![], 0)) by { reveal_with_fuel(crate::text::witnessed, 2); }
    crate::text::lemma_witnessed_none(seq!['.', ' ', 'M', 'y', ' '], " Mana,"@, seq![], 0);
    crate::text::lemma_replace_none(seq!['.', ' ', 'M', 'y', ' '], " Mana,"@, " ¤(Mana),"@);
    assert(crate::text::witnessed(seq!['.', ' ', 'M', 'y', ' '], "I’m"@, seq![0, 0, 0], 0)) by { reveal_with_fuel(crate::text::witnessed, 5); }
    crate::text::lemma_witnessed_none(seq!['.', ' ', 'M', 'y', ' '], "I’m"@, seq![0, 0, 0], 0);
    crate::text::lemma_replace_none(seq!['.', ' ', 'M', 'y', ' '], "I’m"@, "I am"@);
    assert(crate::text::witnessed(seq!['.', ' ', 'M', 'y', ' '], "I'm"@, seq![0, 0, 0], 0)) by { reveal_with_fuel(crate::text::witnessed, 5); }
    crate::text::lemma_witnessed_none(seq!['.', ' ', 'M', 'y', ' '], "I'm"@, seq![0, 0, 0], 0);
    crate::text::lemma_replace_none(seq!['.', ' ', 'M', 'y', ' '], "I'm"@, "I am"@);
}

/// What group 2 makes of the middle of phrase 19.
proof fn lemma_phrase_19_group_2()
    ensures
        phrase_group_2(seq!['.', ' ', 'M', 'y', ' ']) == seq!['.', ' ', '\u{a4}', '(', 'M', 'y', ')', ' '],
{
    reveal(phrase_group_2);
    reveal_strlit(" I am ");
    reveal_strlit(" I have");
    reveal_strlit(" me ");
    reveal_strlit(" my ");
    reveal_strlit(" ¤(I have)");
    reveal_strlit(" ¤(i am) ");
    reveal_strlit(" ¤(i have)");
    reveal_strlit(" ¤(me) ");
    reveal_strlit(" ¤(my) ");
    reveal_strlit(". I am ");
    reveal_strlit(". I have");
    reveal_strlit(". My ");
    reveal_strlit(". ¤(I am) ");
    reveal_strlit(". ¤(My) ");
    assert(crate::text::witnessed(seq!['.', ' ', 'M', 'y', ' '], ". I am "@, seq![], 0)) by { reveal_with_fuel(crate::text::witnessed, 2); }
    crate::text::lemma_witnessed_none(seq!['.', ' ', 'M', 'y', ' '], ". I am "@, seq![], 0);
    crate::text::lemma_replace_none(seq!['.', ' ', 'M', 'y', ' '], ". I am "@, ". ¤(I am) "@);
    assert(crate::text::witnessed(seq!['.', ' ', 'M', 'y', ' '], " I am "@, seq![], 0)) by { reveal_with_fuel(crate::text::witnessed, 2); }
    crate::text::lemma_witnessed_none(seq!['.', ' ', 'M', 'y', ' '], " I am "@, seq![], 0);
    crate::text::lemma_replace_none(seq!['.', ' ', 'M', 'y', ' '], " I am "@, " ¤(i am) "@);
    assert(crate::text::witnessed(seq!['.', ' ', 'M', 'y', ' '], " I have"@, seq![], 0)) by { reveal_with_fuel(crate::text::witnessed, 2); }
    crate::text::lemma_witnessed_none(seq!['.', ' ', 'M', 'y', ' '], " I have"@, seq![], 0);
    crate::text::lemma_replace_none(seq!['.', ' ', 'M', 'y', ' '], " I have"@, " ¤(i have)"@);
    assert(crate::text::witnessed(seq!['.', ' ', 'M', 'y', ' '], ". I have"@, seq![], 0)) by { reveal_with_fuel(crate::text::witnessed, 2); }
    crate::text::lemma_witnessed_none(seq!['.', ' ', 'M', 'y', ' '], ". I have"@, seq![], 0);
    crate::text::lemma_replace_none(seq!['.', ' ', 'M', 'y', ' '], ". I have"@, " ¤(I have)"@);
    assert(crate::text::witnessed(seq!['.', ' ', 'M', 'y', ' '], " my "@, seq![0, 1], 0)) by { reveal_with_fuel(crate::text::witnessed, 4); }
    crate::text::lemma_witnessed_none(seq!['.', ' ', 'M', 'y', ' '], " my "@, seq![0, 1], 0);
    crate::text::lemma_replace_none(seq!['.', ' ', 'M', 'y', ' '], " my "@, " ¤(my) "@);
    assert(crate::text::witnessed_until(seq!['.', ' ', 'M', 'y', ' '], ". My "@, seq![], 0, 0)) by { reveal_with_fuel(crate::text::witnessed_until, 2); }
    assert(crate::text::witnessed(seq!['.', ' ', 'M', 'y', ' '], ". My "@, seq![0, 0, 0, 0, 0], 5)) by { reveal_with_fuel(crate::text::witnessed, 7); }
    assert(seq!['.', ' ', 'M', 'y', ' '].subrange(0, 5) =~= ". My "@);
    crate::text::lemma_replace_once(seq!['.', ' ', 'M', 'y', ' '], ". My "@, ". ¤(My) "@, 0, seq![], seq![0, 0, 0, 0, 0]);
    assert(seq!['.', ' ', 'M', 'y', ' '].subrange(0, 0) + ". ¤(My) "@ + seq!['.', ' ', 'M', 'y', ' '].subrange(5, 5) =~= seq!['.', ' ', '\u{a4}', '(', 'M', 'y', ')', ' ']);
    assert(crate::text::witnessed(seq!['.', ' ', '\u{a4}', '(', 'M', 'y', ')', ' '], " me "@, seq![0, 1, 0, 0, 0], 0)) by { reveal_with_fuel(crate::text::witnessed, 7); }
    crate::text::lemma_witnessed_none(seq!['.', ' ', '\u{a4}', '(', 'M', 'y', ')', ' '], " me "@, seq![0, 1, 0, 0, 0], 0);
    crate::text::lemma_replace_none(seq!['.', ' ', '\u{a4}', '(', 'M', 'y', ')', ' '], " me "@, " ¤(me) "@);
}

/// What group 3 makes of the middle of phrase 19.
proof fn lemma_phrase_19_group_3()
    ensures
        phrase_group_3(seq!['.', ' ', '\u{a4}', '(', 'M', 'y', ')', ' ']) == seq!['.', ' ', '\u{a4}', '(', 'M', 'y', ')', ' '],
{
    reveal(phrase_group_3);
    reveal_strlit(" Me ");
    reveal_strlit(" Me,");
    reveal_strlit(" Me.");
    reveal_strlit(" me,");
    reveal_strlit(" me.");
    reveal_strlit(" ¤(Me) ");
    reveal_strlit(" ¤(Me),");
    reveal_strlit(" ¤(Me).");
    reveal_strlit(" ¤(me),");
    reveal_strlit(" ¤(me).");
    reveal_strlit(". I ");
    reveal_strlit(". ¤(I) ");
    reveal_strlit("\nI ");
    reveal_strlit("\n¤(I) ");
    assert(crate::text::witnessed(seq!['.', ' ', '\u{a4}', '(', 'M', 'y', ')', ' '], " me,"@, seq![0, 1, 0, 0, 0], 0)) by { reveal_with_fuel(crate::text::witnessed, 7); }
    crate::text::lemma_witnessed_none(seq!['.', ' ', '\u{a4}', '(', 'M', 'y', ')', ' '], " me,"@, seq![0, 1, 0, 0, 0], 0);
    crate::text::lemma_replace_none(seq!['.', ' ', '\u{a4}', '(', 'M', 'y', ')', ' '], " me,"@, " ¤(me),"@);
    assert(crate::text::witnessed(seq!['.', ' ', '\u{a4}', '(', 'M', 'y', ')', ' '], " me."@, seq![0, 1, 0, 0, 0], 0)) by { reveal_with_fuel(crate::text::witnessed, 7); }
    crate::text::lemma_witnessed_none(seq!['.', ' ', '\u{a4}', '(', 'M', 'y', ')', ' '], " me."@, seq![0, 1, 0, 0, 0], 0);
    crate::text::lemma_replace_none(seq!['.', ' ', '\u{a4}', '(', 'M', 'y', ')', ' '], " me."@, " ¤(me)."@);
    assert(crate::text::witnessed(seq!['.', ' ', '\u{a4}', '(', 'M', 'y', ')', ' '], " Me "@, seq![0, 1, 0, 0, 0], 0)) by { reveal_with_fuel(crate::text::witnessed, 7); }
    crate::text::lemma_witnessed_none(seq!['.', ' ', '\u{a4}', '(', 'M', 'y', ')', ' '], " Me "@, seq![0, 1, 0, 0, 0], 0);
    crate::text::lemma_replace_none(seq!['.', ' ', '\u{a4}', '(', 'M', 'y', ')', ' '], " Me "@, " ¤(Me) "@);
    assert(crate::text::witnessed(seq!['.', ' ', '\u{a4}', '(', 'M', 'y', ')', ' '], " Me,"@, seq![0, 1, 0, 0, 0], 0)) by { reveal_with_fuel(crate::text::witnessed, 7); }
    crate::text::lemma_witnessed_none(seq!['.', ' ', '\u{a4}', '(', 'M', 'y', ')', ' '], " Me,"@, seq![0, 1, 0, 0, 0], 0);
    crate::text::lemma_replace_none(seq!['.', ' ', '\u{a4}', '(', 'M', 'y', ')', ' '], " Me,"@, " ¤(Me),"@);
    assert(crate::text::witnessed(seq!['.', ' ', '\u{a4}', '(', 'M', 'y', ')', ' '], " Me."@, seq![0, 1, 0, 0, 0], 0)) by { reveal_with_fuel(crate::text::witnessed, 7); }
    crate::text::lemma_witnessed_none(seq!['.', ' ', '\u{a4}', '(', 'M', 'y', ')', ' '], " Me."@, seq![0, 1, 0, 0, 0], 0);
    crate::text::lemma_replace_none(seq!['.', ' ', '\u{a4}', '(', 'M', 'y', ')', ' '], " Me."@, " ¤(Me)."@);
    assert(crate::text::witnessed(seq!['.', ' ', '\u{a4}', '(', 'M', 'y', ')', ' '], "\nI "@, seq![0, 0, 0, 0, 0, 0], 0)) by { reveal_with_fuel(crate::text::witnessed, 8); }
    crate::text::lemma_witnessed_none(seq!['.', ' ', '\u{a4}', '(', 'M', 'y', ')', ' '], "\nI "@, seq![0, 0, 0, 0, 0, 0], 0);
    crate::text::lemma_replace_none(seq!['.', ' ', '\u{a4}', '(', 'M', 'y', ')', ' '], "\nI "@, "\n¤(I) "@);
    assert(crate::text::witnessed(seq!['.', ' ', '\u{a4}', '(', 'M', 'y', ')', ' '], ". I "@, seq![2, 0, 0, 0, 0], 0)) by { reveal_with_fuel(crate::text::witnessed, 7); }
    crate::text::lemma_witnessed_none(seq!['.', ' ', '\u{a4}', '(', 'M', 'y', ')', ' '], ". I "@, seq![2, 0, 0, 0, 0], 0);
    crate::text::lemma_replace_none(seq!['.', ' ', '\u{a4}', '(', 'M', 'y', ')', ' '], ". I "@, ". ¤(I) "@);
}

/// What group 4 makes of the middle of phrase 19.
proof fn lemma_phrase_19_group_4()
    ensures
        phrase_group_4(seq!['.', ' ', '\u{a4}', '(', 'M', 'y', ')', ' ']) == seq!['.', ' ', '\u{a4}', '(', 'M', 'y', ')', ' '],
{
    reveal(phrase_group_4);
    reveal_strlit(" I ");
    reveal_strlit(" I,");
    reveal_strlit(" I.");
    reveal_strlit(" ¤(i) ");
    reveal_strlit(" ¤(i),");
    reveal_strlit(" ¤(i).");
    reveal_strlit(". I,");
    reveal_strlit(". I.");
    reveal_strlit(". ¤(I),");
    reveal_strlit(". ¤(I). ");
    reveal_strlit("Cards ¤(I am) attached to");
    reveal_strlit("The card ¤(I am) attached to");
    reveal_strlit("cards ¤(I am) attached to");
    reveal_strlit("the card ¤(I am) attached to");
    assert(crate::text::witnessed(seq!['.', ' ', '\u{a4}', '(', 'M', 'y', ')', ' '], ". I,"@, seq![2, 0, 0, 0, 0], 0)) by { reveal_with_fuel(crate::text::witnessed, 7); }
    crate::text::lemma_witnessed_none(seq!['.', ' ', '\u{a4}', '(', 'M', 'y', ')', ' '], ". I,"@, seq![2, 0, 0, 0, 0], 0);
    crate::text::lemma_replace_none(seq!['.', ' ', '\u{a4}', '(', 'M', 'y', ')', ' '], ". I,"@, ". ¤(I),"@);
    assert(crate::text::witnessed(seq!['.', ' ', '\u{a4}', '(', 'M', 'y', ')', ' '], ". I."@, seq![2, 0, 0, 0, 0], 0)) by { reveal_with_fuel(crate::text::witnessed, 7); }
    crate::text::lemma_witnessed_none(seq!['.', ' ', '\u{a4}', '(', 'M', 'y', ')', ' '], ". I."@, seq![2, 0, 0, 0, 0], 0);
    crate::text::lemma_replace_none(seq!['.', ' ', '\u{a4}', '(', 'M', 'y', ')', ' '], ". I."@, ". ¤(I). "@);
    assert(crate::text::witnessed(seq!['.', ' ', '\u{a4}', '(', 'M', 'y', ')', ' '], " I "@, seq![0, 1, 0, 0, 0, 0], 0)) by { reveal_with_fuel(crate::text::witnessed, 8); }
    crate::text::lemma_witnessed_none(seq!['.', ' ', '\u{a4}', '(', 'M', 'y', ')', ' '], " I "@, seq![0, 1, 0, 0, 0, 0], 0);
    crate::text::lemma_replace_none(seq!['.', ' ', '\u{a4}', '(', 'M', 'y', ')', ' '], " I "@, " ¤(i) "@);
    assert(crate::text::witnessed(seq!['.', ' ', '\u{a4}', '(', 'M', 'y', ')', ' '], " I,"@, seq![0, 1, 0, 0, 0, 0], 0)) by { reveal_with_fuel(crate::text::witnessed, 8); }
    crate::text::lemma_witnessed_none(seq!['.', ' ', '\u{a4}', '(', 'M', 'y', ')', ' '], " I,"@, seq![0, 1, 0, 0, 0, 0], 0);
    crate::text::lemma_replace_none(seq!['.', ' ', '\u{a4}', '(', 'M', 'y', ')', ' '], " I,"@, " ¤(i),"@);
    assert(crate::text::witnessed(seq!['.', ' ', '\u{a4}', '(', 'M', 'y', ')', ' '], " I."@, seq![0, 1, 0, 0, 0, 0], 0)) by { reveal_with_fuel(crate::text::witnessed, 8); }
    crate::text::lemma_witnessed_none(seq!['.', ' ', '\u{a4}', '(', 'M', 'y', ')', ' '], " I."@, seq![0, 1, 0, 0, 0, 0], 0);
    crate::text::lemma_replace_none(seq!['.', ' ', '\u{a4}', '(', 'M', 'y', ')', ' '], " I."@, " ¤(i)."@);
    assert(crate::text::witnessed(seq!['.', ' ', '\u{a4}', '(', 'M', 'y', ')', ' '], "Cards ¤(I am) attached to"@, seq![], 0)) by { reveal_with_fuel(crate::text::witnessed, 2); }
    crate::text::lemma_witnessed_none(seq!['.', ' ', '\u{a4}', '(', 'M', 'y', ')', ' '], "Cards ¤(I am) attached to"@, seq![], 0);
    crate::text::lemma_replace_none(seq!['.', ' ', '\u{a4}', '(', 'M', 'y', ')', ' '], "Cards ¤(I am) attached to"@, "The card ¤(I am) attached to"@);
    assert(crate::text::witnessed(seq!['.', ' ', '\u{a4}', '(', 'M', 'y', ')', ' '], "cards ¤(I am) attached to"@, seq![], 0)) by { reveal_with_fuel(crate::text::witnessed, 2); }
    crate::text::lemma_witnessed_none(seq!['.', ' ', '\u{a4}', '(', 'M', 'y', ')', ' '], "cards ¤(I am) attached to"@, seq![], 0);
    crate::text::lemma_replace_none(seq!['.', ' ', '\u{a4}', '(', 'M', 'y', ')', ' '], "cards ¤(I am) attached to"@, "the card ¤(I am) attached to"@);
}

/// Between digits, phrase 19 becomes what the card text makes of it.
proof fn lemma_phrase_19(x: Seq<char>, y: Seq<char>)
    requires
        all_digits(x),
        all_digits(y),
        trim(x + ". My "@ + y) == x + ". My "@ + y,
    ensures
        phrase_commands(x + ". My "@ + y) == Some(x + seq!['.', ' ', '\u{a4}', '(', 'M', 'y', ')', ' '] + y),
{
    reveal_strlit(". My ");
    assert(". My "@ =~= seq!['.', ' ', 'M', 'y', ' ']);
    reveal_strlit("Card with");
    reveal_strlit("card with");
    reveal_strlit("Cards with");
    reveal_strlit("cards with");
    let m0 = seq!['.', ' ', 'M', 'y', ' '];
    lemma_group_framed_0(x, m0, y);
    lemma_phrase_19_group_0();
    let m1 = phrase_group_0(m0);
    lemma_group_framed_1(x, m1, y);
    lemma_phrase_19_group_1();
    let m2 = phrase_group_1(m1);
    lemma_group_framed_2(x, m2, y);
    lemma_phrase_19_group_2();
    let m3 = phrase_group_2(m2);
    lemma_group_framed_3(x, m3, y);
    lemma_phrase_19_group_3();
    let m4 = phrase_group_3(m3);
    lemma_group_framed_4(x, m4, y);
    lemma_phrase_19_group_4();
    let m5 = phrase_group_4(m4);
    assert(crate::text::witnessed(seq!['.', ' ', '\u{a4}', '(', 'M', 'y', ')', ' '], "Card with"@, seq![], 0)) by { reveal_with_fuel(crate::text::witnessed, 2); }
    crate::text::lemma_witnessed_none(seq!['.', ' ', '\u{a4}', '(', 'M', 'y', ')', ' '], "Card with"@, seq![], 0);
    assert(digit_free("Card with"@));
    crate::text::lemma_replace_framed(x, seq!['.', ' ', '\u{a4}', '(', 'M', 'y', ')', ' '], y, "Card with"@, "Card with"@);
    assert(with_marker(WithPhrase::Card) == "Card with"@);
    assert(crate::text::witnessed(seq!['.', ' ', '\u{a4}', '(', 'M', 'y', ')', ' '], "card with"@, seq![], 0)) by { reveal_with_fuel(crate::text::witnessed, 2); }
    crate::text::lemma_witnessed_none(seq!['.', ' ', '\u{a4}', '(', 'M', 'y', ')', ' '], "card with"@, seq![], 0);
    assert(digit_free("card with"@));
    crate::text::lemma_replace_framed(x, seq!['.', ' ', '\u{a4}', '(', 'M', 'y', ')', ' '], y, "card with"@, "card with"@);
    assert(with_marker(WithPhrase::CardLower) == "card with"@);
    assert(crate::text::witnessed(seq!['.', ' ', '\u{a4}', '(', 'M', 'y', ')', ' '], "Cards with"@, seq![], 0)) by { reveal_with_fuel(crate::text::witnessed, 2); }
    crate::text::lemma_witnessed_none(seq!['.', ' ', '\u{a4}', '(', 'M', 'y', ')', ' '], "Cards with"@, seq![], 0);
    assert(digit_free("Cards with"@));
    crate::text::lemma_replace_framed(x, seq!['.', ' ', '\u{a4}', '(', 'M', 'y', ')', ' '], y, "Cards with"@, "Cards with"@);
    assert(with_marker(WithPhrase::Cards) == "Cards with"@);
    assert(crate::text::witnessed(seq!['.', ' ', '\u{a4}', '(', 'M', 'y', ')', ' '], "cards with"@, seq![], 0)) by { reveal_with_fuel(crate::text::witnessed, 2); }
    crate::text::lemma_witnessed_none(seq!['.', ' ', '\u{a4}', '(', 'M', 'y', ')', ' '], "cards with"@, seq![], 0);
    assert(digit_free("cards with"@));
    crate::text::lemma_replace_framed(x, seq!['.', ' ', '\u{a4}', '(', 'M', 'y', ')', ' '], y, "cards with"@, "cards with"@);
    assert(with_marker(WithPhrase::CardsLower) == "cards with"@);
}

/// What group 0 makes of the middle of phrase 20.
proof fn lemma_phrase_20_group_0()
    ensures
        phrase_group_0(seq![' ', 'm', 'e', ' ']) == seq![' ', 'm', 'e', ' '],
{
    reveal(phrase_group_0);
    reveal_strlit(" ");
    reveal_strlit("  ");
    reveal_strlit(" mana ");
    reveal_strlit(" ¤(mana) ");
    reveal_strlit("Boost");
    reveal_strlit("Experience");
    reveal_strlit("\n ");
    reveal_strlit("boost");
    reveal_strlit("experience");
    reveal_strlit("¤(Boost)");
    reveal_strlit("¤(Xp)");
    reveal_strlit("¤(boost)");
    reveal_strlit("¤(xp)");
    assert(crate::text::witnessed(seq![' ', 'm', 'e', ' '], "\n "@, seq![0, 0, 0], 0)) by { reveal_with_fuel(crate::text::witnessed, 5); }
    crate::text::lemma_witnessed_none(seq![' ', 'm', 'e', ' '], "\n "@, seq![0, 0, 0], 0);
    crate::text::lemma_replace_none(seq![' ', 'm', 'e', ' '], "\n "@, " "@);
    assert(crate::text::witnessed(seq![' ', 'm', 'e', ' '], "  "@, seq![1, 0, 0], 0)) by { reveal_with_fuel(crate::text::witnessed, 5); }
    crate::text::lemma_witnessed_none(seq![' ', 'm', 'e', ' '], "  "@, seq![1, 0, 0], 0);
    crate::text::lemma_replace_none(seq![' ', 'm', 'e', ' '], "  "@, " "@);
    assert(crate::text::witnessed(seq![' ', 'm', 'e', ' '], "Boost"@, seq![], 0)) by { reveal_with_fuel(crate::text::witnessed, 2); }
    crate::text::lemma_witnessed_none(seq![' ', 'm', 'e', ' '], "Boost"@, seq![], 0);
    crate::text::lemma_replace_none(seq![' ', 'm', 'e', ' '], "Boost"@, "¤(Boost)"@);
    assert(crate::text::witnessed(seq![' ', 'm', 'e', ' '], "boost"@, seq![], 0)) by { reveal_with_fuel(crate::text::witnessed, 2); }
    crate::text::lemma_witnessed_none(seq![' ', 'm', 'e', ' '], "boost"@, seq![], 0);
    crate::text::lemma_replace_none(seq![' ', 'm', 'e', ' '], "boost"@, "¤(boost)"@);
    assert(crate::text::witnessed(seq![' ', 'm', 'e', ' '], "experience"@, seq![], 0)) by { reveal_with_fuel(crate::text::witnessed, 2); }
    crate::text::lemma_witnessed_none(seq![' ', 'm', 'e', ' '], "experience"@, seq![], 0);
    crate::text::lemma_replace_none(seq![' ', 'm', 'e', ' '], "experience"@, "¤(xp)"@);
    assert(crate::text::witnessed(seq![' ', 'm', 'e', ' '], "Experience"@, seq![], 0)) by { reveal_with_fuel(crate::text::witnessed, 2); }
    crate::text::lemma_witnessed_none(seq![' ', 'm', 'e', ' '], "Experience"@, seq![], 0);
    crate::text::lemma_replace_none(seq![' ', 'm', 'e', ' '], "Experience"@, "¤(Xp)"@);
    assert(crate::text::witnessed(seq![' ', 'm', 'e', ' '], " mana "@, seq![], 0)) by { reveal_with_fuel(crate::text::witnessed, 2); }
    crate::text::lemma_witnessed_none(seq![' ', 'm', 'e', ' '], " mana "@, seq![], 0);
    crate::text::lemma_replace_none(seq![' ', 'm', 'e', ' '], " mana "@, " ¤(mana) "@);
}

/// What group 1 makes of the middle of phrase 20.
proof fn lemma_phrase_20_group_1()
    ensures
        phrase_group_1(seq![' ', 'm', 'e', ' ']) == seq![' ', 'm', 'e', ' '],
{
    reveal(phrase_group_1);
    reveal_strlit(" Mana ");
    reveal_strlit(" Mana,");
    reveal_strlit(" Mana.");
    reveal_strlit(" mana,");
    reveal_strlit(" mana.");
    reveal_strlit(" ¤(Mana) ");
    reveal_strlit(" ¤(Mana),");
    reveal_strlit(" ¤(Mana).");
    reveal_strlit(" ¤(mana),");
    reveal_strlit(" ¤(mana).");
    reveal_strlit("I am");
    reveal_strlit("I'm");
    reveal_strlit("I’m");
    assert(crate::text::witnessed(seq![' ', 'm', 'e', ' '], " mana."@, seq![], 0)) by { reveal_with_fuel(crate::text::witnessed, 2); }
    crate::text::lemma_witnessed_none(seq![' ', 'm', 'e', ' '], " mana."@, seq![], 0);
    crate::text::lemma_replace_none(seq![' ', 'm', 'e', ' '], " mana."@, " ¤(mana)."@);
    assert(crate::text::witnessed(seq![' ', 'm', 'e', ' '], " mana,"@, seq![], 0)) by { reveal_with_fuel(crate::text::witnessed, 2); }
    crate::text::lemma_witnessed_none(seq![' ', 'm', 'e', ' '], " mana,"@, seq![], 0);
    crate::text::lemma_replace_none(seq![' ', 'm', 'e', ' '], " mana,"@, " ¤(mana),"@);
    assert(crate::text::witnessed(seq![' ', 'm', 'e', ' '], " Mana "@, seq![], 0)) by { reveal_with_fuel(crate::text::witnessed, 2); }
    crate::text::lemma_witnessed_none(seq![' ', 'm', 'e', ' '], " Mana "@, seq![], 0);
    crate::text::lemma_replace_none(seq![' ', 'm', 'e', ' '], " Mana "@, " ¤(Mana) "@);
    assert(crate::text::witnessed(seq![' ', 'm', 'e', ' '], " Mana."@, seq![], 0)) by { reveal_with_fuel(crate::text::witnessed, 2); }
    crate::text::lemma_witnessed_none(seq![' ', 'm', 'e', ' '], " Mana."@, seq![], 0);
    crate::text::lemma_replace_none(seq![' ', 'm', 'e', ' '], " Mana."@, " ¤(Mana)."@);
    assert(crate::text::witnessed(seq![' ', 'm', 'e', ' '], " Mana,"@, seq![], 0)) by { reveal_with_fuel(crate::text::witnessed, 2); }
    crate::text::lemma_witnessed_none(seq![' ', 'm', 'e', ' '], " Mana,"@, seq![], 0);
    crate::text::lemma_replace_none(seq![' ', 'm', 'e', ' '], " Mana,"@, " ¤(Mana),"@);
    assert(crate::text::witnessed(seq![' ', 'm', 'e', ' '], "I’m"@, seq![0, 0], 0)) by { reveal_with_fuel(crate::text::witnessed, 4); }
    crate::text::lemma_witnessed_none(seq![' ', 'm', 'e', ' '], "I’m"@, seq![0, 0], 0);
    crate::text::lemma_replace_none(seq![' ', 'm', 'e', ' '], "I’m"@, "I am"@);
    assert(crate::text::witnessed(seq![' ', 'm', 'e', ' '], "I'm"@, seq![0, 0], 0)) by { reveal_with_fuel(crate::text::witnessed, 4); }
    crate::text::lemma_witnessed_none(seq![' ', 'm', 'e', ' '], "I'm"@, seq![0, 0], 0);
    crate::text::lemma_replace_none(seq![' ', 'm', 'e', ' '], "I'm"@, "I am"@);
}

/// What group 2 makes of the middle of phrase 20.
proof fn lemma_phrase_20_group_2()
    ensures
        phrase_group_2(seq![' ', 'm', 'e', ' ']) == seq![' ', '\u{a4}', '(', 'm', 'e', ')', ' '],
{
    reveal(phrase_group_2);
    reveal_strlit(" I am ");
    reveal_strlit(" I have");
    reveal_strlit(" me ");
    reveal_strlit(" my ");
    reveal_strlit(" ¤(I have)");
    reveal_strlit(" ¤(i am) ");
    reveal_strlit(" ¤(i have)");
    reveal_strlit(" ¤(me) ");
    reveal_strlit(" ¤(my) ");
    reveal_strlit(". I am ");
    reveal_strlit(". I have");
    reveal_strlit(". My ");
    reveal_strlit(". ¤(I am) ");
    reveal_strlit(". ¤(My) ");
    assert(crate::text::witnessed(seq![' ', 'm', 'e', ' '], ". I am "@, seq![], 0)) by { reveal_with_fuel(crate::text::witnessed, 2); }
    crate::text::lemma_witnessed_none(seq![' ', 'm', 'e', ' '], ". I am "@, seq![], 0);
    crate::text::lemma_replace_none(seq![' ', 'm', 'e', ' '], ". I am "@, ". ¤(I am) "@);
    assert(crate::text::witnessed(seq![' ', 'm', 'e', ' '], " I am "@, seq![], 0)) by { reveal_with_fuel(crate::text::witnessed, 2); }
    crate::text::lemma_witnessed_none(seq![' ', 'm', 'e', ' '], " I am "@, seq![], 0);
    crate::text::lemma_replace_none(seq![' ', 'm', 'e', ' '], " I am "@, " ¤(i am) "@);
    assert(crate::text::witnessed(seq![' ', 'm', 'e', ' '], " I have"@, seq![], 0)) by { reveal_with_fuel(crate::text::witnessed, 2); }
    crate::text::lemma_witnessed_none(seq![' ', 'm', 'e', ' '], " I have"@, seq![], 0);
    crate::text::lemma_replace_none(seq![' ', 'm', 'e', ' '], " I have"@, " ¤(i have)"@);
    assert(crate::text::witnessed(seq![' ', 'm', 'e', ' '], ". I have"@, seq![], 0)) by { reveal_with_fuel(crate::text::witnessed, 2); }
    crate::text::lemma_witnessed_none(seq![' ', 'm', 'e', ' '], ". I have"@, seq![], 0);
    crate::text::lemma_replace_none(seq![' ', 'm', 'e', ' '], ". I have"@, " ¤(I have)"@);
    assert(crate::text::witnessed(seq![' ', 'm', 'e', ' '], " my "@, seq![2], 0)) by { reveal_with_fuel(crate::text::witnessed, 3); }
    crate::text::lemma_witnessed_none(seq![' ', 'm', 'e', ' '], " my "@, seq![2], 0);
    crate::text::lemma_replace_none(seq![' ', 'm', 'e', ' '], " my "@, " ¤(my) "@);
    assert(crate::text::witnessed(seq![' ', 'm', 'e', ' '], ". My "@, seq![], 0)) by { reveal_with_fuel(crate::text::witnessed, 2); }
    crate::text::lemma_witnessed_none(seq![' ', 'm', 'e', ' '], ". My "@, seq![], 0);
    crate::text::lemma_replace_none(seq![' ', 'm', 'e', ' '], ". My "@, ". ¤(My) "@);
    assert(crate::text::witnessed_until(seq![' ', 'm', 'e', ' '], " me "@, seq![], 0, 0)) by { reveal_with_fuel(crate::text::witnessed_until, 2); }
    assert(crate::text::witnessed(seq![' ', 'm', 'e', ' '], " me "@, seq![0, 0, 0, 0], 4)) by { reveal_with_fuel(crate::text::witnessed, 6); }
    assert(seq![' ', 'm', 'e', ' '].subrange(0, 4) =~= " me "@);
    crate::text::lemma_replace_once(seq![' ', 'm', 'e', ' '], " me "@, " ¤(me) "@, 0, seq![], seq![0, 0, 0, 0]);
    assert(seq![' ', 'm', 'e', ' '].subrange(0, 0) + " ¤(me) "@ + seq![' ', 'm', 'e', ' '].subrange(4, 4) =~= seq![' ', '\u{a4}', '(', 'm', 'e', ')', ' ']);
}

/// What group 3 makes of the middle of phrase 20.
proof fn lemma_phrase_20_group_3()
    ensures
        phrase_group_3(seq![' ', '\u{a4}', '(', 'm', 'e', ')', ' ']) == seq![' ', '\u{a4}', '(', 'm', 'e', ')', ' '],
{
    reveal(phrase_group_3);
    reveal_strlit(" Me ");
    reveal_strlit(" Me,");
    reveal_strlit(" Me.");
    reveal_strlit(" me,");
    reveal_strlit(" me.");
    reveal_strlit(" ¤(Me) ");
    reveal_strlit(" ¤(Me),");
    reveal_strlit(" ¤(Me).");
    reveal_strlit(" ¤(me),");
    reveal_strlit(" ¤(me).");
    reveal_strlit(". I ");
    reveal_strlit(". ¤(I) ");
    reveal_strlit("\nI ");
    reveal_strlit("\n¤(I) ");
    assert(crate::text::witnessed(seq![' ', '\u{a4}', '(', 'm', 'e', ')', ' '], " me,"@, seq![1, 0, 0, 0], 0)) by { reveal_with_fuel(crate::text::witnessed, 6); }
    crate::text::lemma_witnessed_none(seq![' ', '\u{a4}', '(', 'm', 'e', ')', ' '], " me,"@, seq![1, 0, 0, 0], 0);
    crate::text::lemma_replace_none(seq![' ', '\u{a4}', '(', 'm', 'e', ')', ' '], " me,"@, " ¤(me),"@);
    assert(crate::text::witnessed(seq![' ', '\u{a4}', '(', 'm', 'e', ')', ' '], " me."@, seq![1, 0, 0, 0], 0)) by { reveal_with_fuel(crate::text::witnessed, 6); }
    crate::text::lemma_witnessed_none(seq![' ', '\u{a4}', '(', 'm', 'e', ')', ' '], " me."@, seq![1, 0, 0, 0], 0);
    crate::text::lemma_replace_none(seq![' ', '\u{a4}', '(', 'm', 'e', ')', ' '], " me."@, " ¤(me)."@);
    assert(crate::text::witnessed(seq![' ', '\u{a4}', '(', 'm', 'e', ')', ' '], " Me "@, seq![1, 0, 0, 0], 0)) by { reveal_with_fuel(crate::text::witnessed, 6); }
    crate::text::lemma_witnessed_none(seq![' ', '\u{a4}', '(', 'm', 'e', ')', ' '], " Me "@, seq![1, 0, 0, 0], 0);
    crate::text::lemma_replace_none(seq![' ', '\u{a4}', '(', 'm', 'e', ')', ' '], " Me "@, " ¤(Me) "@);
    assert(crate::text::witnessed(seq![' ', '\u{a4}', '(', 'm', 'e', ')', ' '], " Me,"@, seq![1, 0, 0, 0], 0)) by { reveal_with_fuel(crate::text::witnessed, 6); }
    crate::text::lemma_witnessed_none(seq![' ', '\u{a4}', '(', 'm', 'e', ')', ' '], " Me,"@, seq![1, 0, 0, 0], 0);
    crate::text::lemma_replace_none(seq![' ', '\u{a4}', '(', 'm', 'e', ')', ' '], " Me,"@, " ¤(Me),"@);
    assert(crate::text::witnessed(seq![' ', '\u{a4}', '(', 'm', 'e', ')', ' '], " Me."@, seq![1, 0, 0, 0], 0)) by { reveal_with_fuel(crate::text::witnessed, 6); }
    crate::text::lemma_witnessed_none(seq![' ', '\u{a4}', '(', 'm', 'e', ')', ' '], " Me."@, seq![1, 0, 0, 0], 0);
    crate::text::lemma_replace_none(seq![' ', '\u{a4}', '(', 'm', 'e', ')', ' '], " Me."@, " ¤(Me)."@);
    assert(crate::text::witnessed(seq![' ', '\u{a4}', '(', 'm', 'e', ')', ' '], "\nI "@, seq![0, 0, 0, 0, 0], 0)) by { reveal_with_fuel(crate::text::witnessed, 7); }
    crate::text::lemma_witnessed_none(seq![' ', '\u{a4}', '(', 'm', 'e', ')', ' '], "\nI "@, seq![0, 0, 0, 0, 0], 0);
    crate::text::lemma_replace_none(seq![' ', '\u{a4}', '(', 'm', 'e', ')', ' '], "\nI "@, "\n¤(I) "@);
    assert(crate::text::witnessed(seq![' ', '\u{a4}', '(', 'm', 'e', ')', ' '], ". I "@, seq![0, 0, 0, 0], 0)) by { reveal_with_fuel(crate::text::witnessed, 6); }
    crate::text::lemma_witnessed_none(seq![' ', '\u{a4}', '(', 'm', 'e', ')', ' '], ". I "@, seq![0, 0, 0, 0], 0);
    crate::text::lemma_replace_none(seq![' ', '\u{a4}', '(', 'm', 'e', ')', ' '], ". I "@, ". ¤(I) "@);
}

/// What group 4 makes of the middle of phrase 20.
proof fn lemma_phrase_20_group_4()
    ensures
        phrase_group_4(seq![' ', '\u{a4}', '(', 'm', 'e', ')', ' ']) == seq![' ', '\u{a4}', '(', 'm', 'e', ')', ' '],
{
    reveal(phrase_group_4);
    reveal_strlit(" I ");
    reveal_strlit(" I,");
    reveal_strlit(" I.");
    reveal_strlit(" ¤(i) ");
    reveal_strlit(" ¤(i),");
    reveal_strlit(" ¤(i).");
    reveal_strlit(". I,");
    reveal_strlit(". I.");
    reveal_strlit(". ¤(I),");
    reveal_strlit(". ¤(I). ");
    reveal_strlit("Cards ¤(I am) attached to");
    reveal_strlit("The card ¤(I am) attached to");
    reveal_strlit("cards ¤(I am) attached to");
    reveal_strlit("the card ¤(I am) attached to");
    assert(crate::text::witnessed(seq![' ', '\u{a4}', '(', 'm', 'e', ')', ' '], ". I,"@, seq![0, 0, 0, 0], 0)) by { reveal_with_fuel(crate::text::witnessed, 6); }
    crate::text::lemma_witnessed_none(seq![' ', '\u{a4}', '(', 'm', 'e', ')', ' '], ". I,"@, seq![0, 0, 0, 0], 0);
    crate::text::lemma_replace_none(seq![' ', '\u{a4}', '(', 'm', 'e', ')', ' '], ". I,"@, ". ¤(I),"@);
    assert(crate::text::witnessed(seq![' ', '\u{a4}', '(', 'm', 'e', ')', ' '], ". I."@, seq![0, 0, 0, 0], 0)) by { reveal_with_fuel(crate::text::witnessed, 6); }
    crate::text::lemma_witnessed_none(seq![' ', '\u{a4}', '(', 'm', 'e', ')', ' '], ". I."@, seq![0, 0, 0, 0], 0);
    crate::text::lemma_replace_none(seq![' ', '\u{a4}', '(', 'm', 'e', ')', ' '], ". I."@, ". ¤(I). "@);
    assert(crate::text::witnessed(seq![' ', '\u{a4}', '(', 'm', 'e', ')', ' '], " I "@, seq![1, 0, 0, 0, 0], 0)) by { reveal_with_fuel(crate::text::witnessed, 7); }
    crate::text::lemma_witnessed_none(seq![' ', '\u{a4}', '(', 'm', 'e', ')', ' '], " I "@, seq![1, 0, 0, 0, 0], 0);
    crate::text::lemma_replace_none(seq![' ', '\u{a4}', '(', 'm', 'e', ')', ' '], " I "@, " ¤(i) "@);
    assert(crate::text::witnessed(seq![' ', '\u{a4}', '(', 'm', 'e', ')', ' '], " I,"@, seq![1, 0, 0, 0, 0], 0)) by { reveal_with_fuel(crate::text::witnessed, 7); }
    crate::text::lemma_witnessed_none(seq![' ', '\u{a4}', '(', 'm', 'e', ')', ' '], " I,"@, seq![1, 0, 0, 0, 0], 0);
    crate::text::lemma_replace_none(seq![' ', '\u{a4}', '(', 'm', 'e', ')', ' '], " I,"@, " ¤(i),"@);
    assert(crate::text::witnessed(seq![' ', '\u{a4}', '(', 'm', 'e', ')', ' '], " I."@, seq![1, 0, 0, 0, 0], 0)) by { reveal_with_fuel(crate::text::witnessed, 7); }
    crate::text::lemma_witnessed_none(seq![' ', '\u{a4}', '(', 'm', 'e', ')', ' '], " I."@, seq![1, 0, 0, 0, 0], 0);
    crate::text::lemma_replace_none(seq![' ', '\u{a4}', '(', 'm', 'e', ')', ' '], " I."@, " ¤(i)."@);
    assert(crate::text::witnessed(seq![' ', '\u{a4}', '(', 'm', 'e', ')', ' '], "Cards ¤(I am) attached to"@, seq![], 0)) by { reveal_with_fuel(crate::text::witnessed, 2); }
    crate::text::lemma_witnessed_none(seq![' ', '\u{a4}', '(', 'm', 'e', ')', ' '], "Cards ¤(I am) attached to"@, seq![], 0);
    crate::text::lemma_replace_none(seq![' ', '\u{a4}', '(', 'm', 'e', ')', ' '], "Cards ¤(I am) attached to"@, "The card ¤(I am) attached to"@);
    assert(crate::text::witnessed(seq![' ', '\u{a4}', '(', 'm', 'e', ')', ' '], "cards ¤(I am) attached to"@, seq![], 0)) by { reveal_with_fuel(crate::text::witnessed, 2); }
    crate::text::lemma_witnessed_none(seq![' ', '\u{a4}', '(', 'm', 'e', ')', ' '], "cards ¤(I am) attached to"@, seq![], 0);
    crate::text::lemma_replace_none(seq![' ', '\u{a4}', '(', 'm', 'e', ')', ' '], "cards ¤(I am) attached to"@, "the card ¤(I am) attached to"@);
}

/// Between digits, phrase 20 becomes what the card text makes of it.
proof fn lemma_phrase_20(x: Seq<char>, y: Seq<char>)
    requires
        all_digits(x),
        all_digits(y),
        trim(x + " me "@ + y) == x + " me "@ + y,
    ensures
        phrase_commands(x + " me "@ + y) == Some(x + seq![' ', '\u{a4}', '(', 'm', 'e', ')', ' '] + y),
{
    reveal_strlit(" me ");
    assert(" me "@ =~= seq![' ', 'm', 'e', ' ']);
    reveal_strlit("Card with");
    reveal_strlit("card with");
    reveal_strlit("Cards with");
    reveal_strlit("cards with");
    let m0 = seq![' ', 'm', 'e', ' '];
    lemma_group_framed_0(x, m0, y);
    lemma_phrase_20_group_0();
    let m1 = phrase_group_0(m0);
    lemma_group_framed_1(x, m1, y);
    lemma_phrase_20_group_1();
    let m2 = phrase_group_1(m1);
    lemma_group_framed_2(x, m2, y);
    lemma_phrase_20_group_2();
    let m3 = phrase_group_2(m2);
    lemma_group_framed_3(x, m3, y);
    lemma_phrase_20_group_3();
    let m4 = phrase_group_3(m3);
    lemma_group_framed_4(x, m4, y);
    lemma_phrase_20_group_4();
    let m5 = phrase_group_4(m4);
    assert(crate::text::witnessed(seq![' ', '\u{a4}', '(', 'm', 'e', ')', ' '], "Card with"@, seq![], 0)) by { reveal_with_fuel(crate::text::witnessed, 2); }
    crate::text::lemma_witnessed_none(seq![' ', '\u{a4}', '(', 'm', 'e', ')', ' '], "Card with"@, seq![], 0);
    assert(digit_free("Card with"@));
    crate::text::lemma_replace_framed(x, seq![' ', '\u{a4}', '(', 'm', 'e', ')', ' '], y, "Card with"@, "Card with"@);
    assert(with_marker(WithPhrase::Card) == "Card with"@);
    assert(crate::text::witnessed(seq![' ', '\u{a4}', '(', 'm', 'e', ')', ' '], "card with"@, seq![], 0)) by { reveal_with_fuel(crate::text::witnessed, 2); }
    crate::text::lemma_witnessed_none(seq![' ', '\u{a4}', '(', 'm', 'e', ')', ' '], "card with"@, seq![], 0);
    assert(digit_free("card with"@));
    crate::text::lemma_replace_framed(x, seq![' ', '\u{a4}', '(', 'm', 'e', ')', ' '], y, "card with"@, "card with"@);
    assert(with_marker(WithPhrase::CardLower) == "card with"@);
    assert(crate::text::witnessed(seq![' ', '\u{a4}', '(', 'm', 'e', ')', ' '], "Cards with"@, seq![], 0)) by { reveal_with_fuel(crate::text::witnessed, 2); }
    crate::text::lemma_witnessed_none(seq![' ', '\u{a4}', '(', 'm', 'e', ')', ' '], "Cards with"@, seq![], 0);
    assert(digit_free("Cards with"@));
    crate::text::lemma_replace_framed(x, seq![' ', '\u{a4}', '(', 'm', 'e', ')', ' '], y, "Cards with"@, "Cards with"@);
    assert(with_marker(WithPhrase::Cards) == "Cards with"@);
    assert(crate::text::witnessed(seq![' ', '\u{a4}', '(', 'm', 'e', ')', ' '], "cards with"@, seq![], 0)) by { reveal_with_fuel(crate::text::witnessed, 2); }
    crate::text::lemma_witnessed_none(seq![' ', '\u{a4}', '(', 'm', 'e', ')', ' '], "cards with"@, seq![], 0);
    assert(digit_free("cards with"@));
    crate::text::lemma_replace_framed(x, seq![' ', '\u{a4}', '(', 'm', 'e', ')', ' '], y, "cards with"@, "cards with"@);
    assert(with_marker(WithPhrase::CardsLower) == "cards with"@);
}

/// What group 0 makes of the middle of phrase 21.
proof fn lemma_phrase_21_group_0()
    ensures
        phrase_group_0(seq![' ', 'm', 'e', ',']) == seq![' ', 'm', 'e', ','],
{
    reveal(phrase_group_0);
    reveal_strlit(" ");
    reveal_strlit("  ");
    reveal_strlit(" mana ");
    reveal_strlit(" ¤(mana) ");
    reveal_strlit("Boost");
    reveal_strlit("Experience");
    reveal_strlit("\n ");
    reveal_strlit("boost");
    reveal_strlit("experience");
    reveal_strlit("¤(Boost)");
    reveal_strlit("¤(Xp)");
    reveal_strlit("¤(boost)");
    reveal_strlit("¤(xp)");
    assert(crate::text::witnessed(seq![' ', 'm', 'e', ','], "\n "@, seq![0, 0, 0], 0)) by { reveal_with_fuel(crate::text::witnessed, 5); }
    crate::text::lemma_witnessed_none(seq![' ', 'm', 'e', ','], "\n "@, seq![0, 0, 0], 0);
    crate::text::lemma_replace_none(seq![' ', 'm', 'e', ','], "\n "@, " "@);
    assert(crate::text::witnessed(seq![' ', 'm', 'e', ','], "  "@, seq![1, 0, 0], 0)) by { reveal_with_fuel(crate::text::witnessed, 5); }
    crate::text::lemma_witnessed_none(seq![' ', 'm', 'e', ','], "  "@, seq![1, 0, 0], 0);
    crate::text::lemma_replace_none(seq![' ', 'm', 'e', ','], "  "@, " "@);
    assert(crate::text::witnessed(seq![' ', 'm', 'e', ','], "Boost"@, seq![], 0)) by { reveal_with_fuel(crate::text::witnessed, 2); }
    crate::text::lemma_witnessed_none(seq![' ', 'm', 'e', ','], "Boost"@, seq![], 0);
    crate::text::lemma_replace_none(seq![' ', 'm', 'e', ','], "Boost"@, "¤(Boost)"@);
    assert(crate::text::witnessed(seq![' ', 'm', 'e', ','], "boost"@, seq![], 0)) by { reveal_with_fuel(crate::text::witnessed, 2); }
    crate::text::lemma_witnessed_none(seq![' ', 'm', 'e', ','], "boost"@, seq![], 0);
    crate::text::lemma_replace_none(seq![' ', 'm', 'e', ','], "boost"@, "¤(boost)"@);
    assert(crate::text::witnessed(seq![' ', 'm', 'e', ','], "experience"@, seq![], 0)) by { reveal_with_fuel(crate::text::witnessed, 2); }
    crate::text::lemma_witnessed_none(seq![' ', 'm', 'e', ','], "experience"@, seq![], 0);
    crate::text::lemma_replace_none(seq![' ', 'm', 'e', ','], "experience"@, "¤(xp)"@);
    assert(crate::text::witnessed(seq![' ', 'm', 'e', ','], "Experience"@, seq![], 0)) by { reveal_with_fuel(crate::text::witnessed, 2); }
    crate::text::lemma_witnessed_none(seq![' ', 'm', 'e', ','], "Experience"@, seq![], 0);
    crate::text::lemma_replace_none(seq![' ', 'm', 'e', ','], "Experience"@, "¤(Xp)"@);
    assert(crate::text::witnessed(seq![' ', 'm', 'e', ','], " mana "@, seq![], 0)) by { reveal_with_fuel(crate::text::witnessed, 2); }
    crate::text::lemma_witnessed_none(seq![' ', 'm', 'e', ','], " mana "@, seq![], 0);
    crate::text::lemma_replace_none(seq![' ', 'm', 'e', ','], " mana "@, " ¤(mana) "@);
}

/// What group 1 makes of the middle of phrase 21.
proof fn lemma_phrase_21_group_1()
    ensures
        phrase_group_1(seq![' ', 'm', 'e', ',']) == seq![' ', 'm', 'e', ','],
{
    reveal(phrase_group_1);
    reveal_strlit(" Mana ");
    reveal_strlit(" Mana,");
    reveal_strlit(" Mana.");
    reveal_strlit(" mana,");
    reveal_strlit(" mana.");
    reveal_strlit(" ¤(Mana) ");
    reveal_strlit(" ¤(Mana),");
    reveal_strlit(" ¤(Mana).");
    reveal_strlit(" ¤(mana),");
    reveal_strlit(" ¤(mana).");
    reveal_strlit("I am");
    reveal_strlit("I'm");
    reveal_strlit("I’m");
    assert(crate::text::witnessed(seq![' ', 'm', 'e', ','], " mana."@, seq![], 0)) by { reveal_with_fuel(crate::text::witnessed, 2); }
    crate::text::lemma_witnessed_none(seq![' ', 'm', 'e', ','], " mana."@, seq![], 0);
    crate::text::lemma_replace_none(seq![' ', 'm', 'e', ','], " mana."@, " ¤(mana)."@);
    assert(crate::text::witnessed(seq![' ', 'm', 'e', ','], " mana,"@, seq![], 0)) by { reveal_with_fuel(crate::text::witnessed, 2); }
    crate::text::lemma_witnessed_none(seq![' ', 'm', 'e', ','], " mana,"@, seq![], 0);
    crate::text::lemma_replace_none(seq![' ', 'm', 'e', ','], " mana,"@, " ¤(mana),"@);
    assert(crate::text::witnessed(seq![' ', 'm', 'e', ','], " Mana "@, seq![], 0)) by { reveal_with_fuel(crate::text::witnessed, 2); }
    crate::text::lemma_witnessed_none(seq![' ', 'm', 'e', ','], " Mana "@, seq![], 0);
    crate::text::lemma_replace_none(seq![' ', 'm', 'e', ','], " Mana "@, " ¤(Mana) "@);
    assert(crate::text::witnessed(seq![' ', 'm', 'e', ','], " Mana."@, seq![], 0)) by { reveal_with_fuel(crate::text::witnessed, 2); }
    crate::text::lemma_witnessed_none(seq![' ', 'm', 'e', ','], " Mana."@, seq![], 0);
    crate::text::lemma_replace_none(seq![' ', 'm', 'e', ','], " Mana."@, " ¤(Mana)."@);
    assert(crate::text::witnessed(seq![' ', 'm', 'e', ','], " Mana,"@, seq![], 0)) by { reveal_with_fuel(crate::text::witnessed, 2); }
    crate::text::lemma_witnessed_none(seq![' ', 'm', 'e', ','], " Mana,"@, seq![], 0);
    crate::text::lemma_replace_none(seq![' ', 'm', 'e', ','], " Mana,"@, " ¤(Mana),"@);
    assert(crate::text::witnessed(seq![' ', 'm', 'e', ','], "I’m"@, seq![0, 0], 0)) by { reveal_with_fuel(crate::text::witnessed, 4); }
    crate::text::lemma_witnessed_none(seq![' ', 'm', 'e', ','], "I’m"@, seq![0, 0], 0);
    crate::text::lemma_replace_none(seq![' ', 'm', 'e', ','], "I’m"@, "I am"@);
    assert(crate::text::witnessed(seq![' ', 'm', 'e', ','], "I'm"@, seq![0, 0], 0)) by { reveal_with_fuel(crate::text::witnessed, 4); }
    crate::text::lemma_witnessed_none(seq![' ', 'm', 'e', ','], "I'm"@, seq![0, 0], 0);
    crate::text::lemma_replace_none(seq![' ', 'm', 'e', ','], "I'm"@, "I am"@);
}

/// What group 2 makes of the middle of phrase 21.
proof fn lemma_phrase_21_group_2()
    ensures
        phrase_group_2(seq![' ', 'm', 'e', ',']) == seq![' ', 'm', 'e', ','],
{
    reveal(phrase_group_2);
    reveal_strlit(" I am ");
    reveal_strlit(" I have");
    reveal_strlit(" me ");
    reveal_strlit(" my ");
    reveal_strlit(" ¤(I have)");
    reveal_strlit(" ¤(i am) ");
    reveal_strlit(" ¤(i have)");
    reveal_strlit(" ¤(me) ");
    reveal_strlit(" ¤(my) ");
    reveal_strlit(". I am ");
    reveal_strlit(". I have");
    reveal_strlit(". My ");
    reveal_strlit(". ¤(I am) ");
    reveal_strlit(". ¤(My) ");
    assert(crate::text::witnessed(seq![' ', 'm', 'e', ','], ". I am "@, seq![], 0)) by { reveal_with_fuel(crate::text::witnessed, 2); }
    crate::text::lemma_witnessed_none(seq![' ', 'm', 'e', ','], ". I am "@, seq![], 0);
    crate::text::lemma_replace_none(seq![' ', 'm', 'e', ','], ". I am "@, ". ¤(I am) "@);
    assert(crate::text::witnessed(seq![' ', 'm', 'e', ','], " I am "@, seq![], 0)) by { reveal_with_fuel(crate::text::witnessed, 2); }
    crate::text::lemma_witnessed_none(seq![' ', 'm', 'e', ','], " I am "@, seq![], 0);
    crate::text::lemma_replace_none(seq![' ', 'm', 'e', ','], " I am "@, " ¤(i am) "@);
    assert(crate::text::witnessed(seq![' ', 'm', 'e', ','], " I have"@, seq![], 0)) by { reveal_with_fuel(crate::text::witnessed, 2); }
    crate::text::lemma_witnessed_none(seq![' ', 'm', 'e', ','], " I have"@, seq![], 0);
    crate::text::lemma_replace_none(seq![' ', 'm', 'e', ','], " I have"@, " ¤(i have)"@);
    assert(crate::text::witnessed(seq![' ', 'm', 'e', ','], ". I have"@, seq![], 0)) by { reveal_with_fuel(crate::text::witnessed, 2); }
    crate::text::lemma_witnessed_none(seq![' ', 'm', 'e', ','], ". I have"@, seq![], 0);
    crate::text::lemma_replace_none(seq![' ', 'm', 'e', ','], ". I have"@, " ¤(I have)"@);
    assert(crate::text::witnessed(seq![' ', 'm', 'e', ','], " my "@, seq![2], 0)) by { reveal_with_fuel(crate::text::witnessed, 3); }
    crate::text::lemma_witnessed_none(seq![' ', 'm', 'e', ','], " my "@, seq![2], 0);
    crate::text::lemma_replace_none(seq![' ', 'm', 'e', ','], " my "@, " ¤(my) "@);
    assert(crate::text::witnessed(seq![' ', 'm', 'e', ','], ". My "@, seq![], 0)) by { reveal_with_fuel(crate::text::witnessed, 2); }
    crate::text::lemma_witnessed_none(seq![' ', 'm', 'e', ','], ". My "@, seq![], 0);
    crate::text::lemma_replace_none(seq![' ', 'm', 'e', ','], ". My "@, ". ¤(My) "@);
    assert(crate::text::witnessed(seq![' ', 'm', 'e', ','], " me "@, seq![3], 0)) by { reveal_with_fuel(crate::text::witnessed, 3); }
    crate::text::lemma_witnessed_none(seq![' ', 'm', 'e', ','], " me "@, seq![3], 0);
    crate::text::lemma_replace_none(seq![' ', 'm', 'e', ','], " me "@, " ¤(me) "@);
}

/// What group 3 makes of the middle of phrase 21.
proof fn lemma_phrase_21_group_3()
    ensures
        phrase_group_3(seq![' ', 'm', 'e', ',']) == seq![' ', '\u{a4}', '(', 'm', 'e', ')', ','],
{
    reveal(phrase_group_3);
    reveal_strlit(" Me ");
    reveal_strlit(" Me,");
    reveal_strlit(" Me.");
    reveal_strlit(" me,");
    reveal_strlit(" me.");
    reveal_strlit(" ¤(Me) ");
    reveal_strlit(" ¤(Me),");
    reveal_strlit(" ¤(Me).");
    reveal_strlit(" ¤(me),");
    reveal_strlit(" ¤(me).");
    reveal_strlit(". I ");
    reveal_strlit(". ¤(I) ");
    reveal_strlit("\nI ");
    reveal_strlit("\n¤(I) ");
    assert(crate::text::witnessed_until(seq![' ', 'm', 'e', ','], " me,"@, seq![], 0, 0)) by { reveal_with_fuel(crate::text::witnessed_until, 2); }
    assert(crate::text::witnessed(seq![' ', 'm', 'e', ','], " me,"@, seq![0, 0, 0, 0], 4)) by { reveal_with_fuel(crate::text::witnessed, 6); }
    assert(seq![' ', 'm', 'e', ','].subrange(0, 4) =~= " me,"@);
    crate::text::lemma_replace_once(seq![' ', 'm', 'e', ','], " me,"@, " ¤(me),"@, 0, seq![], seq![0, 0, 0, 0]);
    assert(seq![' ', 'm', 'e', ','].subrange(0, 0) + " ¤(me),"@ + seq![' ', 'm', 'e', ','].subrange(4, 4) =~= seq![' ', '\u{a4}', '(', 'm', 'e', ')', ',']);
    assert(crate::text::witnessed(seq![' ', '\u{a4}', '(', 'm', 'e', ')', ','], " me."@, seq![1, 0, 0, 0], 0)) by { reveal_with_fuel(crate::text::witnessed, 6); }
    crate::text::lemma_witnessed_none(seq![' ', '\u{a4}', '(', 'm', 'e', ')', ','], " me."@, seq![1, 0, 0, 0], 0);
    crate::text::lemma_replace_none(seq![' ', '\u{a4}', '(', 'm', 'e', ')', ','], " me."@, " ¤(me)."@);
    assert(crate::text::witnessed(seq![' ', '\u{a4}', '(', 'm', 'e', ')', ','], " Me "@, seq![1, 0, 0, 0], 0)) by { reveal_with_fuel(crate::text::witnessed, 6); }
    crate::text::lemma_witnessed_none(seq![' ', '\u{a4}', '(', 'm', 'e', ')', ','], " Me "@, seq![1, 0, 0, 0], 0);
    crate::text::lemma_replace_none(seq![' ', '\u{a4}', '(', 'm', 'e', ')', ','], " Me "@, " ¤(Me) "@);
    assert(crate::text::witnessed(seq![' ', '\u{a4}', '(', 'm', 'e', ')', ','], " Me,"@, seq![1, 0, 0, 0], 0)) by { reveal_with_fuel(crate::text::witnessed, 6); }
    crate::text::lemma_witnessed_none(seq![' ', '\u{a4}', '(', 'm', 'e', ')', ','], " Me,"@, seq![1, 0, 0, 0], 0);
    crate::text::lemma_replace_none(seq![' ', '\u{a4}', '(', 'm', 'e', ')', ','], " Me,"@, " ¤(Me),"@);
    assert(crate::text::witnessed(seq![' ', '\u{a4}', '(', 'm', 'e', ')', ','], " Me."@, seq![1, 0, 0, 0], 0)) by { reveal_with_fuel(crate::text::witnessed, 6); }
    crate::text::lemma_witnessed_none(seq![' ', '\u{a4}', '(', 'm', 'e', ')', ','], " Me."@, seq![1, 0, 0, 0], 0);
    crate::text::lemma_replace_none(seq![' ', '\u{a4}', '(', 'm', 'e', ')', ','], " Me."@, " ¤(Me)."@);
    assert(crate::text::witnessed(seq![' ', '\u{a4}', '(', 'm', 'e', ')', ','], "\nI "@, seq![0, 0, 0, 0, 0], 0)) by { reveal_with_fuel(crate::text::witnessed, 7); }
    crate::text::lemma_witnessed_none(seq![' ', '\u{a4}', '(', 'm', 'e', ')', ','], "\nI "@, seq![0, 0, 0, 0, 0], 0);
    crate::text::lemma_replace_none(seq![' ', '\u{a4}', '(', 'm', 'e', ')', ','], "\nI "@, "\n¤(I) "@);
    assert(crate::text::witnessed(seq![' ', '\u{a4}', '(', 'm', 'e', ')', ','], ". I "@, seq![0, 0, 0, 0], 0)) by { reveal_with_fuel(crate::text::witnessed, 6); }
    crate::text::lemma_witnessed_none(seq![' ', '\u{a4}', '(', 'm', 'e', ')', ','], ". I "@, seq![0, 0, 0, 0], 0);
    crate::text::lemma_replace_none(seq![' ', '\u{a4}', '(', 'm', 'e', ')', ','], ". I "@, ". ¤(I) "@);
}

/// What group 4 makes of the middle of phrase 21.
proof fn lemma_phrase_21_group_4()
    ensures
        phrase_group_4(seq![' ', '\u{a4}', '(', 'm', 'e', ')', ',']) == seq![' ', '\u{a4}', '(', 'm', 'e', ')', ','],
{
    reveal(phrase_group_4);
    reveal_strlit(" I ");
    reveal_strlit(" I,");
    reveal_strlit(" I.");
    reveal_strlit(" ¤(i) ");
    reveal_strlit(" ¤(i),");
    reveal_strlit(" ¤(i).");
    reveal_strlit(". I,");
    reveal_strlit(". I.");
    reveal_strlit(". ¤(I),");
    reveal_strlit(". ¤(I). ");
    reveal_strlit("Cards ¤(I am) attached to");
    reveal_strlit("The card ¤(I am) attached to");
    reveal_strlit("cards ¤(I am) attached to");
    reveal_strlit("the card ¤(I am) attached to");
    assert(crate::text::witnessed(seq![' ', '\u{a4}', '(', 'm', 'e', ')', ','], ". I,"@, seq![0, 0, 0, 0], 0)) by { reveal_with_fuel(crate::text::witnessed, 6); }
    crate::text::lemma_witnessed_none(seq![' ', '\u{a4}', '(', 'm', 'e', ')', ','], ". I,"@, seq![0, 0, 0, 0], 0);
    crate::text::lemma_replace_none(seq![' ', '\u{a4}', '(', 'm', 'e', ')', ','], ". I,"@, ". ¤(I),"@);
    assert(crate::text::witnessed(seq![' ', '\u{a4}', '(', 'm', 'e', ')', ','], ". I."@, seq![0, 0, 0, 0], 0)) by { reveal_with_fuel(crate::text::witnessed, 6); }
    crate::text::lemma_witnessed_none(seq![' ', '\u{a4}', '(', 'm', 'e', ')', ','], ". I."@, seq![0, 0, 0, 0], 0);
    crate::text::lemma_replace_none(seq![' ', '\u{a4}', '(', 'm', 'e', ')', ','], ". I."@, ". ¤(I). "@);
    assert(crate::text::witnessed(seq![' ', '\u{a4}', '(', 'm', 'e', ')', ','], " I "@, seq![1, 0, 0, 0, 0], 0)) by { reveal_with_fuel(crate::text::witnessed, 7); }
    crate::text::lemma_witnessed_none(seq![' ', '\u{a4}', '(', 'm', 'e', ')', ','], " I "@, seq![1, 0, 0, 0, 0], 0);
    crate::text::lemma_replace_none(seq![' ', '\u{a4}', '(', 'm', 'e', ')', ','], " I "@, " ¤(i) "@);
    assert(crate::text::witnessed(seq![' ', '\u{a4}', '(', 'm', 'e', ')', ','], " I,"@, seq![1, 0, 0, 0, 0], 0)) by { reveal_with_fuel(crate::text::witnessed, 7); }
    crate::text::lemma_witnessed_none(seq![' ', '\u{a4}', '(', 'm', 'e', ')', ','], " I,"@, seq![1, 0, 0, 0, 0], 0);
    crate::text::lemma_replace_none(seq![' ', '\u{a4}', '(', 'm', 'e', ')', ','], " I,"@, " ¤(i),"@);
    assert(crate::text::witnessed(seq![' ', '\u{a4}', '(', 'm', 'e', ')', ','], " I."@, seq![1, 0, 0, 0, 0], 0)) by { reveal_with_fuel(crate::text::witnessed, 7); }
    crate::text::lemma_witnessed_none(seq![' ', '\u{a4}', '(', 'm', 'e', ')', ','], " I."@, seq![1, 0, 0, 0, 0], 0);
    crate::text::lemma_replace_none(seq![' ', '\u{a4}', '(', 'm', 'e', ')', ','], " I."@, " ¤(i)."@);
    assert(crate::text::witnessed(seq![' ', '\u{a4}', '(', 'm', 'e', ')', ','], "Cards ¤(I am) attached to"@, seq![], 0)) by { reveal_with_fuel(crate::text::witnessed, 2); }
    crate::text::lemma_witnessed_none(seq![' ', '\u{a4}', '(', 'm', 'e', ')', ','], "Cards ¤(I am) attached to"@, seq![], 0);
    crate::text::lemma_replace_none(seq![' ', '\u{a4}', '(', 'm', 'e', ')', ','], "Cards ¤(I am) attached to"@, "The card ¤(I am) attached to"@);
    assert(crate::text::witnessed(seq![' ', '\u{a4}', '(', 'm', 'e', ')', ','], "cards ¤(I am) attached to"@, seq![], 0)) by { reveal_with_fuel(crate::text::witnessed, 2); }
    crate::text::lemma_witnessed_none(seq![' ', '\u{a4}', '(', 'm', 'e', ')', ','], "cards ¤(I am) attached to"@, seq![], 0);
    crate::text::lemma_replace_none(seq![' ', '\u{a4}', '(', 'm', 'e', ')', ','], "cards ¤(I am) attached to"@, "the card ¤(I am) attached to"@);
}

/// Between digits, phrase 21 becomes what the card text makes of it.
proof fn lemma_phrase_21(x: Seq<char>, y: Seq<char>)
    requires
        all_digits(x),
        all_digits(y),
        trim(x + " me,"@ + y) == x + " me,"@ + y,
    ensures
        phrase_commands(x + " me,"@ + y) == Some(x + seq![' ', '\u{a4}', '(', 'm', 'e', ')', ','] + y),
{
    reveal_strlit(" me,");
    assert(" me,"@ =~= seq![' ', 'm', 'e', ',']);
    reveal_strlit("Card with");
    reveal_strlit("card with");
    reveal_strlit("Cards with");
    reveal_strlit("cards with");
    let m0 = seq![' ', 'm', 'e', ','];
    lemma_group_framed_0(x, m0, y);
    lemma_phrase_21_group_0();
    let m1 = phrase_group_0(m0);
    lemma_group_framed_1(x, m1, y);
    lemma_phrase_21_group_1();
    let m2 = phrase_group_1(m1);
    lemma_group_framed_2(x, m2, y);
    lemma_phrase_21_group_2();
    let m3 = phrase_group_2(m2);
    lemma_group_framed_3(x, m3, y);
    lemma_phrase_21_group_3();
    let m4 = phrase_group_3(m3);
    lemma_group_framed_4(x, m4, y);
    lemma_phrase_21_group_4();
    let m5 = phrase_group_4(m4);
    assert(crate::text::witnessed(seq![' ', '\u{a4}', '(', 'm', 'e', ')', ','], "Card with"@, seq![], 0)) by { reveal_with_fuel(crate::text::witnessed, 2); }
    crate::text::lemma_witnessed_none(seq![' ', '\u{a4}', '(', 'm', 'e', ')', ','], "Card with"@, seq![], 0);
    assert(digit_free("Card with"@));
    crate::text::lemma_replace_framed(x, seq![' ', '\u{a4}', '(', 'm', 'e', ')', ','], y, "Card with"@, "Card with"@);
    assert(with_marker(WithPhrase::Card) == "Card with"@);
    assert(crate::text::witnessed(seq![' ', '\u{a4}', '(', 'm', 'e', ')', ','], "card with"@, seq![], 0)) by { reveal_with_fuel(crate::text::witnessed, 2); }
    crate::text::lemma_witnessed_none(seq![' ', '\u{a4}', '(', 'm', 'e', ')', ','], "card with"@, seq![], 0);
    assert(digit_free("card with"@));
    crate::text::lemma_replace_framed(x, seq![' ', '\u{a4}', '(', 'm', 'e', ')', ','], y, "card with"@, "card with"@);
    assert(with_marker(WithPhrase::CardLower) == "card with"@);
    assert(crate::text::witnessed(seq![' ', '\u{a4}', '(', 'm', 'e', ')', ','], "Cards with"@, seq![], 0)) by { reveal_with_fuel(crate::text::witnessed, 2); }
    crate::text::lemma_witnessed_none(seq![' ', '\u{a4}', '(', 'm', 'e', ')', ','], "Cards with"@, seq![], 0);
    assert(digit_free("Cards with"@));
    crate::text::lemma_replace_framed(x, seq![' ', '\u{a4}', '(', 'm', 'e', ')', ','], y, "Cards with"@, "Cards with"@);
    assert(with_marker(WithPhrase::Cards) == "Cards with"@);
    assert(crate::text::witnessed(seq![' ', '\u{a4}', '(', 'm', 'e', ')', ','], "cards with"@, seq![], 0)) by { reveal_with_fuel(crate::text::witnessed, 2); }
    crate::text::lemma_witnessed_none(seq![' ', '\u{a4}', '(', 'm', 'e', ')', ','], "cards with"@, seq![], 0);
    assert(digit_free("cards with"@));
    crate::text::lemma_replace_framed(x, seq![' ', '\u{a4}', '(', 'm', 'e', ')', ','], y, "cards with"@, "cards with"@);
    assert(with_marker(WithPhrase::CardsLower) == "cards with"@);
}

/// What group 0 makes of the middle of phrase 22.
proof fn lemma_phrase_22_group_0()
    ensures
        phrase_group_0(seq![' ', 'm', 'e', '.']) == seq![' ', 'm', 'e', '.'],
{
    reveal(phrase_group_0);
    reveal_strlit(" ");
    reveal_strlit("  ");
    reveal_strlit(" mana ");
    reveal_strlit(" ¤(mana) ");
    reveal_strlit("Boost");
    reveal_strlit("Experience");
    reveal_strlit("\n ");
    reveal_strlit("boost");
    reveal_strlit("experience");
    reveal_strlit("¤(Boost)");
    reveal_strlit("¤(Xp)");
    reveal_strlit("¤(boost)");
    reveal_strlit("¤(xp)");
    assert(crate::text::witnessed(seq![' ', 'm', 'e', '.'], "\n "@, seq![0, 0, 0], 0)) by { reveal_with_fuel(crate::text::witnessed, 5); }
    crate::text::lemma_witnessed_none(seq![' ', 'm', 'e', '.'], "\n "@, seq![0, 0, 0], 0);
    crate::text::lemma_replace_none(seq![' ', 'm', 'e', '.'], "\n "@, " "@);
    assert(crate::text::witnessed(seq![' ', 'm', 'e', '.'], "  "@, seq![1, 0, 0], 0)) by { reveal_with_fuel(crate::text::witnessed, 5); }
    crate::text::lemma_witnessed_none(seq![' ', 'm', 'e', '.'], "  "@, seq![1, 0, 0], 0);
    crate::text::lemma_replace_none(seq![' ', 'm', 'e', '.'], "  "@, " "@);
    assert(crate::text::witnessed(seq![' ', 'm', 'e', '.'], "Boost"@, seq![], 0)) by { reveal_with_fuel(crate::text::witnessed, 2); }
    crate::text::lemma_witnessed_none(seq![' ', 'm', 'e', '.'], "Boost"@, seq![], 0);
    crate::text::lemma_replace_none(seq![' ', 'm', 'e', '.'], "Boost"@, "¤(Boost)"@);
    assert(crate::text::witnessed(seq![' ', 'm', 'e', '.'], "boost"@, seq![], 0)) by { reveal_with_fuel(crate::text::witnessed, 2); }
    crate::text::lemma_witnessed_none(seq![' ', 'm', 'e', '.'], "boost"@, seq![], 0);
    crate::text::lemma_replace_none(seq![' ', 'm', 'e', '.'], "boost"@, "¤(boost)"@);
    assert(crate::text::witnessed(seq![' ', 'm', 'e', '.'], "experience"@, seq![], 0)) by { reveal_with_fuel(crate::text::witnessed, 2); }
    crate::text::lemma_witnessed_none(seq![' ', 'm', 'e', '.'], "experience"@, seq![], 0);
    crate::text::lemma_replace_none(seq![' ', 'm', 'e', '.'], "experience"@, "¤(xp)"@);
    assert(crate::text::witnessed(seq![' ', 'm', 'e', '.'], "Experience"@, seq![], 0)) by { reveal_with_fuel(crate::text::witnessed, 2); }
    crate::text::lemma_witnessed_none(seq![' ', 'm', 'e', '.'], "Experience"@, seq![], 0);
    crate::text::lemma_replace_none(seq![' ', 'm', 'e', '.'], "Experience"@, "¤(Xp)"@);
    assert(crate::text::witnessed(seq![' ', 'm', 'e', '.'], " mana "@, seq![], 0)) by { reveal_with_fuel(crate::text::witnessed, 2); }
    crate::text::lemma_witnessed_none(seq![' ', 'm', 'e', '.'], " mana "@, seq![], 0);
    crate::text::lemma_replace_none(seq![' ', 'm', 'e', '.'], " mana "@, " ¤(mana) "@);
}

/// What group 1 makes of the middle of phrase 22.
proof fn lemma_phrase_22_group_1()
    ensures
        phrase_group_1(seq![' ', 'm', 'e', '.']) == seq![' ', 'm', 'e', '.'],
{
    reveal(phrase_group_1);
    reveal_strlit(" Mana ");
    reveal_strlit(" Mana,");
    reveal_strlit(" Mana.");
    reveal_strlit(" mana,");
    reveal_strlit(" mana.");
    reveal_strlit(" ¤(Mana) ");
    reveal_strlit(" ¤(Mana),");
    reveal_strlit(" ¤(Mana).");
    reveal_strlit(" ¤(mana),");
    reveal_strlit(" ¤(mana).");
    reveal_strlit("I am");
    reveal_strlit("I'm");
    reveal_strlit("I’m");
    assert(crate::text::witnessed(seq![' ', 'm', 'e', '.'], " mana."@, seq![], 0)) by { reveal_with_fuel(crate::text::witnessed, 2); }
    crate::text::lemma_witnessed_none(seq![' ', 'm', 'e', '.'], " mana."@, seq![], 0);
    crate::text::lemma_replace_none(seq![' ', 'm', 'e', '.'], " mana."@, " ¤(mana)."@);
    assert(crate::text::witnessed(seq![' ', 'm', 'e', '.'], " mana,"@, seq![], 0)) by { reveal_with_fuel(crate::text::witnessed, 2); }
    crate::text::lemma_witnessed_none(seq![' ', 'm', 'e', '.'], " mana,"@, seq![], 0);
    crate::text::lemma_replace_none(seq![' ', 'm', 'e', '.'], " mana,"@, " ¤(mana),"@);
    assert(crate::text::witnessed(seq![' ', 'm', 'e', '.'], " Mana "@, seq![], 0)) by { reveal_with_fuel(crate::text::witnessed, 2); }
    crate::text::lemma_witnessed_none(seq![' ', 'm', 'e', '.'], " Mana "@, seq![], 0);
    crate::text::lemma_replace_none(seq![' ', 'm', 'e', '.'], " Mana "@, " ¤(Mana) "@);
    assert(crate::text::witnessed(seq![' ', 'm', 'e', '.'], " Mana."@, seq![], 0)) by { reveal_with_fuel(crate::text::witnessed, 2); }
    crate::text::lemma_witnessed_none(seq![' ', 'm', 'e', '.'], " Mana."@, seq![], 0);
    crate::text::lemma_replace_none(seq![' ', 'm', 'e', '.'], " Mana."@, " ¤(Mana)."@);
    assert(crate::text::witnessed(seq![' ', 'm', 'e', '.'], " Mana,"@, seq![], 0)) by { reveal_with_fuel(crate::text::witnessed, 2); }
    crate::text::lemma_witnessed_none(seq![' ', 'm', 'e', '.'], " Mana,"@, seq![], 0);
    crate::text::lemma_replace_none(seq![' ', 'm', 'e', '.'], " Mana,"@, " ¤(Mana),"@);
    assert(crate::text::witnessed(seq![' ', 'm', 'e', '.'], "I’m"@, seq![0, 0], 0)) by { reveal_with_fuel(crate::text::witnessed, 4); }
    crate::text::lemma_witnessed_none(seq![' ', 'm', 'e', '.'], "I’m"@, seq![0, 0], 0);
    crate::text::lemma_replace_none(seq![' ', 'm', 'e', '.'], "I’m"@, "I am"@);
    assert(crate::text::witnessed(seq![' ', 'm', 'e', '.'], "I'm"@, seq![0, 0], 0)) by { reveal_with_fuel(crate::text::witnessed, 4); }
    crate::text::lemma_witnessed_none(seq![' ', 'm', 'e', '.'], "I'm"@, seq![0, 0], 0);
    crate::text::lemma_replace_none(seq![' ', 'm', 'e', '.'], "I'm"@, "I am"@);
}

/// What group 2 makes of the middle of phrase 22.
proof fn lemma_phrase_22_group_2()
    ensures
        phrase_group_2(seq![' ', 'm', 'e', '.']) == seq![' ', 'm', 'e', '.'],
{
    reveal(phrase_group_2);
    reveal_strlit(" I am ");
    reveal_strlit(" I have");
    reveal_strlit(" me ");
    reveal_strlit(" my ");
    reveal_strlit(" ¤(I have)");
    reveal_strlit(" ¤(i am) ");
    reveal_strlit(" ¤(i have)");
    reveal_strlit(" ¤(me) ");
    reveal_strlit(" ¤(my) ");
    reveal_strlit(". I am ");
    reveal_strlit(". I have");
    reveal_strlit(". My ");
    reveal_strlit(". ¤(I am) ");
    reveal_strlit(". ¤(My) ");
    assert(crate::text::witnessed(seq![' ', 'm', 'e', '.'], ". I am "@, seq![], 0)) by { reveal_with_fuel(crate::text::witnessed, 2); }
    crate::text::lemma_witnessed_none(seq![' ', 'm', 'e', '.'], ". I am "@, seq![], 0);
    crate::text::lemma_replace_none(seq![' ', 'm', 'e', '.'], ". I am "@, ". ¤(I am) "@);
    assert(crate::text::witnessed(seq![' ', 'm', 'e', '.'], " I am "@, seq![], 0)) by { reveal_with_fuel(crate::text::witnessed, 2); }
    crate::text::lemma_witnessed_none(seq![' ', 'm', 'e', '.'], " I am "@, seq![], 0);
    crate::text::lemma_replace_none(seq![' ', 'm', 'e', '.'], " I am "@, " ¤(i am) "@);
    assert(crate::text::witnessed(seq![' ', 'm', 'e', '.'], " I have"@, seq![], 0)) by { reveal_with_fuel(crate::text::witnessed, 2); }
    crate::text::lemma_witnessed_none(seq![' ', 'm', 'e', '.'], " I have"@, seq![], 0);
    crate::text::lemma_replace_none(seq![' ', 'm', 'e', '.'], " I have"@, " ¤(i have)"@);
    assert(crate::text::witnessed(seq![' ', 'm', 'e', '.'], ". I have"@, seq![], 0)) by { reveal_with_fuel(crate::text::witnessed, 2); }
    crate::text::lemma_witnessed_none(seq![' ', 'm', 'e', '.'], ". I have"@, seq![], 0);
    crate::text::lemma_replace_none(seq![' ', 'm', 'e', '.'], ". I have"@, " ¤(I have)"@);
    assert(crate::text::witnessed(seq![' ', 'm', 'e', '.'], " my "@, seq![2], 0)) by { reveal_with_fuel(crate::text::witnessed, 3); }
    crate::text::lemma_witnessed_none(seq![' ', 'm', 'e', '.'], " my "@, seq![2], 0);
    crate::text::lemma_replace_none(seq![' ', 'm', 'e', '.'], " my "@, " ¤(my) "@);
    assert(crate::text::witnessed(seq![' ', 'm', 'e', '.'], ". My "@, seq![], 0)) by { reveal_with_fuel(crate::text::witnessed, 2); }
    crate::text::lemma_witnessed_none(seq![' ', 'm', 'e', '.'], ". My "@, seq![], 0);
    crate::text::lemma_replace_none(seq![' ', 'm', 'e', '.'], ". My "@, ". ¤(My) "@);
    assert(crate::text::witnessed(seq![' ', 'm', 'e', '.'], " me "@, seq![3], 0)) by { reveal_with_fuel(crate::text::witnessed, 3); }
    crate::text::lemma_witnessed_none(seq![' ', 'm', 'e', '.'], " me "@, seq![3], 0);
    crate::text::lemma_replace_none(seq![' ', 'm', 'e', '.'], " me "@, " ¤(me) "@);
}

/// What group 3 makes of the middle of phrase 22.
proof fn lemma_phrase_22_group_3()
    ensures
        phrase_group_3(seq![' ', 'm', 'e', '.']) == seq![' ', '\u{a4}', '(', 'm', 'e', ')', '.'],
{
    reveal(phrase_group_3);
    reveal_strlit(" Me ");
    reveal_strlit(" Me,");
    reveal_strlit(" Me.");
    reveal_strlit(" me,");
    reveal_strlit(" me.");
    reveal_strlit(" ¤(Me) ");
    reveal_strlit(" ¤(Me),");
    reveal_strlit(" ¤(Me).");
    reveal_strlit(" ¤(me),");
    reveal_strlit(" ¤(me).");
    reveal_strlit(". I ");
    reveal_strlit(". ¤(I) ");
    reveal_strlit("\nI ");
    reveal_strlit("\n¤(I) ");
    assert(crate::text::witnessed(seq![' ', 'm', 'e', '.'], " me,"@, seq![3], 0)) by { reveal_with_fuel(crate::text::witnessed, 3); }
    crate::text::lemma_witnessed_none(seq![' ', 'm', 'e', '.'], " me,"@, seq![3], 0);
    crate::text::lemma_replace_none(seq![' ', 'm', 'e', '.'], " me,"@, " ¤(me),"@);
    assert(crate::text::witnessed_until(seq![' ', 'm', 'e', '.'], " me."@, seq![], 0, 0)) by { reveal_with_fuel(crate::text::witnessed_until, 2); }
    assert(crate::text::witnessed(seq![' ', 'm', 'e', '.'], " me."@, seq![0, 0, 0, 0], 4)) by { reveal_with_fuel(crate::text::witnessed, 6); }
    assert(seq![' ', 'm', 'e', '.'].subrange(0, 4) =~= " me."@);
    crate::text::lemma_replace_once(seq![' ', 'm', 'e', '.'], " me."@, " ¤(me)."@, 0, seq![], seq![0, 0, 0, 0]);
    assert(seq![' ', 'm', 'e', '.'].subrange(0, 0) + " ¤(me)."@ + seq![' ', 'm', 'e', '.'].subrange(4, 4) =~= seq![' ', '\u{a4}', '(', 'm', 'e', ')', '.']);
    assert(crate::text::witnessed(seq![' ', '\u{a4}', '(', 'm', 'e', ')', '.'], " Me "@, seq![1, 0, 0, 0], 0)) by { reveal_with_fuel(crate::text::witnessed, 6); }
    crate::text::lemma_witnessed_none(seq![' ', '\u{a4}', '(', 'm', 'e', ')', '.'], " Me "@, seq![1, 0, 0, 0], 0);
    crate::text::lemma_replace_none(seq![' ', '\u{a4}', '(', 'm', 'e', ')', '.'], " Me "@, " ¤(Me) "@);
    assert(crate::text::witnessed(seq![' ', '\u{a4}', '(', 'm', 'e', ')', '.'], " Me,"@, seq![1, 0, 0, 0], 0)) by { reveal_with_fuel(crate::text::witnessed, 6); }
    crate::text::lemma_witnessed_none(seq![' ', '\u{a4}', '(', 'm', 'e', ')', '.'], " Me,"@, seq![1, 0, 0, 0], 0);
    crate::text::lemma_replace_none(seq![' ', '\u{a4}', '(', 'm', 'e', ')', '.'], " Me,"@, " ¤(Me),"@);
    assert(crate::text::witnessed(seq![' ', '\u{a4}', '(', 'm', 'e', ')', '.'], " Me."@, seq![1, 0, 0, 0], 0)) by { reveal_with_fuel(crate::text::witnessed, 6); }
    crate::text::lemma_witnessed_none(seq![' ', '\u{a4}', '(', 'm', 'e', ')', '.'], " Me."@, seq![1, 0, 0, 0], 0);
    crate::text::lemma_replace_none(seq![' ', '\u{a4}', '(', 'm', 'e', ')', '.'], " Me."@, " ¤(Me)."@);
    assert(crate::text::witnessed(seq![' ', '\u{a4}', '(', 'm', 'e', ')', '.'], "\nI "@, seq![0, 0, 0, 0, 0], 0)) by { reveal_with_fuel(crate::text::witnessed, 7); }
    crate::text::lemma_witnessed_none(seq![' ', '\u{a4}', '(', 'm', 'e', ')', '.'], "\nI "@, seq![0, 0, 0, 0, 0], 0);
    crate::text::lemma_replace_none(seq![' ', '\u{a4}', '(', 'm', 'e', ')', '.'], "\nI "@, "\n¤(I) "@);
    assert(crate::text::witnessed(seq![' ', '\u{a4}', '(', 'm', 'e', ')', '.'], ". I "@, seq![0, 0, 0, 0], 0)) by { reveal_with_fuel(crate::text::witnessed, 6); }
    crate::text::lemma_witnessed_none(seq![' ', '\u{a4}', '(', 'm', 'e', ')', '.'], ". I "@, seq![0, 0, 0, 0], 0);
    crate::text::lemma_replace_none(seq![' ', '\u{a4}', '(', 'm', 'e', ')', '.'], ". I "@, ". ¤(I) "@);
}

/// What group 4 makes of the middle of phrase 22.
proof fn lemma_phrase_22_group_4()
    ensures
        phrase_group_4(seq![' ', '\u{a4}', '(', 'm', 'e', ')', '.']) == seq![' ', '\u{a4}', '(', 'm', 'e', ')', '.'],
{
    reveal(phrase_group_4);
    reveal_strlit(" I ");
    reveal_strlit(" I,");
    reveal_strlit(" I.");
    reveal_strlit(" ¤(i) ");
    reveal_strlit(" ¤(i),");
    reveal_strlit(" ¤(i).");
    reveal_strlit(". I,");
    reveal_strlit(". I.");
    reveal_strlit(". ¤(I),");
    reveal_strlit(". ¤(I). ");
    reveal_strlit("Cards ¤(I am) attached to");
    reveal_strlit("The card ¤(I am) attached to");
    reveal_strlit("cards ¤(I am) attached to");
    reveal_strlit("the card ¤(I am) attached to");
    assert(crate::text::witnessed(seq![' ', '\u{a4}', '(', 'm', 'e', ')', '.'], ". I,"@, seq![0, 0, 0, 0], 0)) by { reveal_with_fuel(crate::text::witnessed, 6); }
    crate::text::lemma_witnessed_none(seq![' ', '\u{a4}', '(', 'm', 'e', ')', '.'], ". I,"@, seq![0, 0, 0, 0], 0);
    crate::text::lemma_replace_none(seq![' ', '\u{a4}', '(', 'm', 'e', ')', '.'], ". I,"@, ". ¤(I),"@);
    assert(crate::text::witnessed(seq![' ', '\u{a4}', '(', 'm', 'e', ')', '.'], ". I."@, seq![0, 0, 0, 0], 0)) by { reveal_with_fuel(crate::text::witnessed, 6); }
    crate::text::lemma_witnessed_none(seq![' ', '\u{a4}', '(', 'm', 'e', ')', '.'], ". I."@, seq![0, 0, 0, 0], 0);
    crate::text::lemma_replace_none(seq![' ', '\u{a4}', '(', 'm', 'e', ')', '.'], ". I."@, ". ¤(I). "@);
    assert(crate::text::witnessed(seq![' ', '\u{a4}', '(', 'm', 'e', ')', '.'], " I "@, seq![1, 0, 0, 0, 0], 0)) by { reveal_with_fuel(crate::text::witnessed, 7); }
    crate::text::lemma_witnessed_none(seq![' ', '\u{a4}', '(', 'm', 'e', ')', '.'], " I "@, seq![1, 0, 0, 0, 0], 0);
    crate::text::lemma_replace_none(seq![' ', '\u{a4}', '(', 'm', 'e', ')', '.'], " I "@, " ¤(i) "@);
    assert(crate::text::witnessed(seq![' ', '\u{a4}', '(', 'm', 'e', ')', '.'], " I,"@, seq![1, 0, 0, 0, 0], 0)) by { reveal_with_fuel(crate::text::witnessed, 7); }
    crate::text::lemma_witnessed_none(seq![' ', '\u{a4}', '(', 'm', 'e', ')', '.'], " I,"@, seq![1, 0, 0, 0, 0], 0);
    crate::text::lemma_replace_none(seq![' ', '\u{a4}', '(', 'm', 'e', ')', '.'], " I,"@, " ¤(i),"@);
    assert(crate::text::witnessed(seq![' ', '\u{a4}', '(', 'm', 'e', ')', '.'], " I."@, seq![1, 0, 0, 0, 0], 0)) by { reveal_with_fuel(crate::text::witnessed, 7); }
    crate::text::lemma_witnessed_none(seq![' ', '\u{a4}', '(', 'm', 'e', ')', '.'], " I."@, seq![1, 0, 0, 0, 0], 0);
    crate::text::lemma_replace_none(seq![' ', '\u{a4}', '(', 'm', 'e', ')', '.'], " I."@, " ¤(i)."@);
    assert(crate::text::witnessed(seq![' ', '\u{a4}', '(', 'm', 'e', ')', '.'], "Cards ¤(I am) attached to"@, seq![], 0)) by { reveal_with_fuel(crate::text::witnessed, 2); }
    crate::text::lemma_witnessed_none(seq![' ', '\u{a4}', '(', 'm', 'e', ')', '.'], "Cards ¤(I am) attached to"@, seq![], 0);
    crate::text::lemma_replace_none(seq![' ', '\u{a4}', '(', 'm', 'e', ')', '.'], "Cards ¤(I am) attached to"@, "The card ¤(I am) attached to"@);
    assert(crate::text::witnessed(seq![' ', '\u{a4}', '(', 'm', 'e', ')', '.'], "cards ¤(I am) attached to"@, seq![], 0)) by { reveal_with_fuel(crate::text::witnessed, 2); }
    crate::text::lemma_witnessed_none(seq![' ', '\u{a4}', '(', 'm', 'e', ')', '.'], "cards ¤(I am) attached to"@, seq![], 0);
    crate::text::lemma_replace_none(seq![' ', '\u{a4}', '(', 'm', 'e', ')', '.'], "cards ¤(I am) attached to"@, "the card ¤(I am) attached to"@);
}

/// Between digits, phrase 22 becomes what the card text makes of it.
proof fn lemma_phrase_22(x: Seq<char>, y: Seq<char>)
    requires
        all_digits(x),
        all_digits(y),
        trim(x + " me."@ + y) == x + " me."@ + y,
    ensures
        phrase_commands(x + " me."@ + y) == Some(x + seq![' ', '\u{a4}', '(', 'm', 'e', ')', '.'] + y),
{
    reveal_strlit(" me.");
    assert(" me."@ =~= seq![' ', 'm', 'e', '.']);
    reveal_strlit("Card with");
    reveal_strlit("card with");
    reveal_strlit("Cards with");
    reveal_strlit("cards with");
    let m0 = seq![' ', 'm', 'e', '.'];
    lemma_group_framed_0(x, m0, y);
    lemma_phrase_22_group_0();
    let m1 = phrase_group_0(m0);
    lemma_group_framed_1(x, m1, y);
    lemma_phrase_22_group_1();
    let m2 = phrase_group_1(m1);
    lemma_group_framed_2(x, m2, y);
    lemma_phrase_22_group_2();
    let m3 = phrase_group_2(m2);
    lemma_group_framed_3(x, m3, y);
    lemma_phrase_22_group_3();
    let m4 = phrase_group_3(m3);
    lemma_group_framed_4(x, m4, y);
    lemma_phrase_22_group_4();
    let m5 = phrase_group_4(m4);
    assert(crate::text::witnessed(seq![' ', '\u{a4}', '(', 'm', 'e', ')', '.'], "Card with"@, seq![], 0)) by { reveal_with_fuel(crate::text::witnessed, 2); }
    crate::text::lemma_witnessed_none(seq![' ', '\u{a4}', '(', 'm', 'e', ')', '.'], "Card with"@, seq![], 0);
    assert(digit_free("Card with"@));
    crate::text::lemma_replace_framed(x, seq![' ', '\u{a4}', '(', 'm', 'e', ')', '.'], y, "Card with"@, "Card with"@);
    assert(with_marker(WithPhrase::Card) == "Card with"@);
    assert(crate::text::witnessed(seq![' ', '\u{a4}', '(', 'm', 'e', ')', '.'], "card with"@, seq![], 0)) by { reveal_with_fuel(crate::text::witnessed, 2); }
    crate::text::lemma_witnessed_none(seq![' ', '\u{a4}', '(', 'm', 'e', ')', '.'], "card with"@, seq![], 0);
    assert(digit_free("card with"@));
    crate::text::lemma_replace_framed(x, seq![' ', '\u{a4}', '(', 'm', 'e', ')', '.'], y, "card with"@, "card with"@);
    assert(with_marker(WithPhrase::CardLower) == "card with"@);
    assert(crate::text::witnessed(seq![' ', '\u{a4}', '(', 'm', 'e', ')', '.'], "Cards with"@, seq![], 0)) by { reveal_with_fuel(crate::text::witnessed, 2); }
    crate::text::lemma_witnessed_none(seq![' ', '\u{a4}', '(', 'm', 'e', ')', '.'], "Cards with"@, seq![], 0);
    assert(digit_free("Cards with"@));
    crate::text::lemma_replace_framed(x, seq![' ', '\u{a4}', '(', 'm', 'e', ')', '.'], y, "Cards with"@, "Cards with"@);
    assert(with_marker(WithPhrase::Cards) == "Cards with"@);
    assert(crate::text::witnessed(seq![' ', '\u{a4}', '(', 'm', 'e', ')', '.'], "cards with"@, seq![], 0)) by { reveal_with_fuel(crate::text::witnessed, 2); }
    crate::text::lemma_witnessed_none(seq![' ', '\u{a4}', '(', 'm', 'e', ')', '.'], "cards with"@, seq![], 0);
    assert(digit_free("cards with"@));
    crate::text::lemma_replace_framed(x, seq![' ', '\u{a4}', '(', 'm', 'e', ')', '.'], y, "cards with"@, "cards with"@);
    assert(with_marker(WithPhrase::CardsLower) == "cards with"@);
}

/// What group 0 makes of the middle of phrase 23.
proof fn lemma_phrase_23_group_0()
    ensures
        phrase_group_0(seq![' ', 'M', 'e', ' ']) == seq![' ', 'M', 'e', ' '],
{
    reveal(phrase_group_0);
    reveal_strlit(" ");
    reveal_strlit("  ");
    reveal_strlit(" mana ");
    reveal_strlit(" ¤(mana) ");
    reveal_strlit("Boost");
    reveal_strlit("Experience");
    reveal_strlit("\n ");
    reveal_strlit("boost");
    reveal_strlit("experience");
    reveal_strlit("¤(Boost)");
    reveal_strlit("¤(Xp)");
    reveal_strlit("¤(boost)");
    reveal_strlit("¤(xp)");
    assert(crate::text::witnessed(seq![' ', 'M', 'e', ' '], "\n "@, seq![0, 0, 0], 0)) by { reveal_with_fuel(crate::text::witnessed, 5); }
    crate::text::lemma_witnessed_none(seq![' ', 'M', 'e', ' '], "\n "@, seq![0, 0, 0], 0);
    crate::text::lemma_replace_none(seq![' ', 'M', 'e', ' '], "\n "@, " "@);
    assert(crate::text::witnessed(seq![' ', 'M', 'e', ' '], "  "@, seq![1, 0, 0], 0)) by { reveal_with_fuel(crate::text::witnessed, 5); }
    crate::text::lemma_witnessed_none(seq![' ', 'M', 'e', ' '], "  "@, seq![1, 0, 0], 0);
    crate::text::lemma_replace_none(seq![' ', 'M', 'e', ' '], "  "@, " "@);
    assert(crate::text::witnessed(seq![' ', 'M', 'e', ' '], "Boost"@, seq![], 0)) by { reveal_with_fuel(crate::text::witnessed, 2); }
    crate::text::lemma_witnessed_none(seq![' ', 'M', 'e', ' '], "Boost"@, seq![], 0);
    crate::text::lemma_replace_none(seq![' ', 'M', 'e', ' '], "Boost"@, "¤(Boost)"@);
    assert(crate::text::witnessed(seq![' ', 'M', 'e', ' '], "boost"@, seq![], 0)) by { reveal_with_fuel(crate::text::witnessed, 2); }
    crate::text::lemma_witnessed_none(seq![' ', 'M', 'e', ' '], "boost"@, seq![], 0);
    crate::text::lemma_replace_none(seq![' ', 'M', 'e', ' '], "boost"@, "¤(boost)"@);
    assert(crate::text::witnessed(seq![' ', 'M', 'e', ' '], "experience"@, seq![], 0)) by { reveal_with_fuel(crate::text::witnessed, 2); }
    crate::text::lemma_witnessed_none(seq![' ', 'M', 'e', ' '], "experience"@, seq![], 0);
    crate::text::lemma_replace_none(seq![' ', 'M', 'e', ' '], "experience"@, "¤(xp)"@);
    assert(crate::text::witnessed(seq![' ', 'M', 'e', ' '], "Experience"@, seq![], 0)) by { reveal_with_fuel(crate::text::witnessed, 2); }
    crate::text::lemma_witnessed_none(seq![' ', 'M', 'e', ' '], "Experience"@, seq![], 0);
    crate::text::lemma_replace_none(seq![' ', 'M', 'e', ' '], "Experience"@, "¤(Xp)"@);
    assert(crate::text::witnessed(seq![' ', 'M', 'e', ' '], " mana "@, seq![], 0)) by { reveal_with_fuel(crate::text::witnessed, 2); }
    crate::text::lemma_witnessed_none(seq![' ', 'M', 'e', ' '], " mana "@, seq![], 0);
    crate::text::lemma_replace_none(seq![' ', 'M', 'e', ' '], " mana "@, " ¤(mana) "@);
}

/// What group 1 makes of the middle of phrase 23.
proof fn lemma_phrase_23_group_1()
    ensures
        phrase_group_1(seq![' ', 'M', 'e', ' ']) == seq![' ', 'M', 'e', ' '],
{
    reveal(phrase_group_1);
    reveal_strlit(" Mana ");
    reveal_strlit(" Mana,");
    reveal_strlit(" Mana.");
    reveal_strlit(" mana,");
    reveal_strlit(" mana.");
    reveal_strlit(" ¤(Mana) ");
    reveal_strlit(" ¤(Mana),");
    reveal_strlit(" ¤(Mana).");
    reveal_strlit(" ¤(mana),");
    reveal_strlit(" ¤(mana).");
    reveal_strlit("I am");
    reveal_strlit("I'm");
    reveal_strlit("I’m");
    assert(crate::text::witnessed(seq![' ', 'M', 'e', ' '], " mana."@, seq![], 0)) by { reveal_with_fuel(crate::text::witnessed, 2); }
    crate::text::lemma_witnessed_none(seq![' ', 'M', 'e', ' '], " mana."@, seq![], 0);
    crate::text::lemma_replace_none(seq![' ', 'M', 'e', ' '], " mana."@, " ¤(mana)."@);
    assert(crate::text::witnessed(seq![' ', 'M', 'e', ' '], " mana,"@, seq![], 0)) by { reveal_with_fuel(crate::text::witnessed, 2); }
    crate::text::lemma_witnessed_none(seq![' ', 'M', 'e', ' '], " mana,"@, seq![], 0);
    crate::text::lemma_replace_none(seq![' ', 'M', 'e', ' '], " mana,"@, " ¤(mana),"@);
    assert(crate::text::witnessed(seq![' ', 'M', 'e', ' '], " Mana "@, seq![], 0)) by { reveal_with_fuel(crate::text::witnessed, 2); }
    crate::text::lemma_witnessed_none(seq![' ', 'M', 'e', ' '], " Mana "@, seq![], 0);
    crate::text::lemma_replace_none(seq![' ', 'M', 'e', ' '], " Mana "@, " ¤(Mana) "@);
    assert(crate::text::witnessed(seq![' ', 'M', 'e', ' '], " Mana."@, seq![], 0)) by { reveal_with_fuel(crate::text::witnessed, 2); }
    crate::text::lemma_witnessed_none(seq![' ', 'M', 'e', ' '], " Mana."@, seq![], 0);
    crate::text::lemma_replace_none(seq![' ', 'M', 'e', ' '], " Mana."@, " ¤(Mana)."@);
    assert(crate::text::witnessed(seq![' ', 'M', 'e', ' '], " Mana,"@, seq![], 0)) by { reveal_with_fuel(crate::text::witnessed, 2); }
    crate::text::lemma_witnessed_none(seq![' ', 'M', 'e', ' '], " Mana,"@, seq![], 0);
    crate::text::lemma_replace_none(seq![' ', 'M', 'e', ' '], " Mana,"@, " ¤(Mana),"@);
    assert(crate::text::witnessed(seq![' ', 'M', 'e', ' '], "I’m"@, seq![0, 0], 0)) by { reveal_with_fuel(crate::text::witnessed, 4); }
    crate::text::lemma_witnessed_none(seq![' ', 'M', 'e', ' '], "I’m"@, seq![0, 0], 0);
    crate::text::lemma_replace_none(seq![' ', 'M', 'e', ' '], "I’m"@, "I am"@);
    assert(crate::text::witnessed(seq![' ', 'M', 'e', ' '], "I'm"@, seq![0, 0], 0)) by { reveal_with_fuel(crate::text::witnessed, 4); }
    crate::text::lemma_witnessed_none(seq![' ', 'M', 'e', ' '], "I'm"@, seq![0, 0], 0);
    crate::text::lemma_replace_none(seq![' ', 'M', 'e', ' '], "I'm"@, "I am"@);
}

/// What group 2 makes of the middle of phrase 23.
proof fn lemma_phrase_23_group_2()
    ensures
        phrase_group_2(seq![' ', 'M', 'e', ' ']) == seq![' ', 'M', 'e', ' '],
{
    reveal(phrase_group_2);
    reveal_strlit(" I am ");
    reveal_strlit(" I have");
    reveal_strlit(" me ");
    reveal_strlit(" my ");
    reveal_strlit(" ¤(I have)");
    reveal_strlit(" ¤(i am) ");
    reveal_strlit(" ¤(i have)");
    reveal_strlit(" ¤(me) ");
    reveal_strlit(" ¤(my) ");
    reveal_strlit(". I am ");
    reveal_strlit(". I have");
    reveal_strlit(". My ");
    reveal_strlit(". ¤(I am) ");
    reveal_strlit(". ¤(My) ");
    assert(crate::text::witnessed(seq![' ', 'M', 'e', ' '], ". I am "@, seq![], 0)) by { reveal_with_fuel(crate::text::witnessed, 2); }
    crate::text::lemma_witnessed_none(seq![' ', 'M', 'e', ' '], ". I am "@, seq![], 0);
    crate::text::lemma_replace_none(seq![' ', 'M', 'e', ' '], ". I am "@, ". ¤(I am) "@);
    assert(crate::text::witnessed(seq![' ', 'M', 'e', ' '], " I am "@, seq![], 0)) by { reveal_with_fuel(crate::text::witnessed, 2); }
    crate::text::lemma_witnessed_none(seq![' ', 'M', 'e', ' '], " I am "@, seq![], 0);
    crate::text::lemma_replace_none(seq![' ', 'M', 'e', ' '], " I am "@, " ¤(i am) "@);
    assert(crate::text::witnessed(seq![' ', 'M', 'e', ' '], " I have"@, seq![], 0)) by { reveal_with_fuel(crate::text::witnessed, 2); }
    crate::text::lemma_witnessed_none(seq![' ', 'M', 'e', ' '], " I have"@, seq![], 0);
    crate::text::lemma_replace_none(seq![' ', 'M', 'e', ' '], " I have"@, " ¤(i have)"@);
    assert(crate::text::witnessed(seq![' ', 'M', 'e', ' '], ". I have"@, seq![], 0)) by { reveal_with_fuel(crate::text::witnessed, 2); }
    crate::text::lemma_witnessed_none(seq![' ', 'M', 'e', ' '], ". I have"@, seq![], 0);
    crate::text::lemma_replace_none(seq![' ', 'M', 'e', ' '], ". I have"@, " ¤(I have)"@);
    assert(crate::text::witnessed(seq![' ', 'M', 'e', ' '], " my "@, seq![1], 0)) by { reveal_with_fuel(crate::text::witnessed, 3); }
    crate::text::lemma_witnessed_none(seq![' ', 'M', 'e', ' '], " my "@, seq![1], 0);
    crate::text::lemma_replace_none(seq![' ', 'M', 'e', ' '], " my "@, " ¤(my) "@);
    assert(crate::text::witnessed(seq![' ', 'M', 'e', ' '], ". My "@, seq![], 0)) by { reveal_with_fuel(crate::text::witnessed, 2); }
    crate::text::lemma_witnessed_none(seq![' ', 'M', 'e', ' '], ". My "@, seq![], 0);
    crate::text::lemma_replace_none(seq![' ', 'M', 'e', ' '], ". My "@, ". ¤(My) "@);
    assert(crate::text::witnessed(seq![' ', 'M', 'e', ' '], " me "@, seq![1], 0)) by { reveal_with_fuel(crate::text::witnessed, 3); }
    crate::text::lemma_witnessed_none(seq![' ', 'M', 'e', ' '], " me "@, seq![1], 0);
    crate::text::lemma_replace_none(seq![' ', 'M', 'e', ' '], " me "@, " ¤(me) "@);
}

/// What group 3 makes of the middle of phrase 23.
proof fn lemma_phrase_23_group_3()
    ensures
        phrase_group_3(seq![' ', 'M', 'e', ' ']) == seq![' ', '\u{a4}', '(', 'M', 'e', ')', ' '],
{
    reveal(phrase_group_3);
    reveal_strlit(" Me ");
    reveal_strlit(" Me,");
    reveal_strlit(" Me.");
    reveal_strlit(" me,");
    reveal_strlit(" me.");
    reveal_strlit(" ¤(Me) ");
    reveal_strlit(" ¤(Me),");
    reveal_strlit(" ¤(Me).");
    reveal_strlit(" ¤(me),");
    reveal_strlit(" ¤(me).");
    reveal_strlit(". I ");
    reveal_strlit(". ¤(I) ");
    reveal_strlit("\nI ");
    reveal_strlit("\n¤(I) ");
    assert(crate::text::witnessed(seq![' ', 'M', 'e', ' '], " me,"@, seq![1], 0)) by { reveal_with_fuel(crate::text::witnessed, 3); }
    crate::text::lemma_witnessed_none(seq![' ', 'M', 'e', ' '], " me,"@, seq![1], 0);
    crate::text::lemma_replace_none(seq![' ', 'M', 'e', ' '], " me,"@, " ¤(me),"@);
    assert(crate::text::witnessed(seq![' ', 'M', 'e', ' '], " me."@, seq![1], 0)) by { reveal_with_fuel(crate::text::witnessed, 3); }
    crate::text::lemma_witnessed_none(seq![' ', 'M', 'e', ' '], " me."@, seq![1], 0);
    crate::text::lemma_replace_none(seq![' ', 'M', 'e', ' '], " me."@, " ¤(me)."@);
    assert(crate::text::witnessed_until(seq![' ', 'M', 'e', ' '], " Me "@, seq![], 0, 0)) by { reveal_with_fuel(crate::text::witnessed_until, 2); }
    assert(crate::text::witnessed(seq![' ', 'M', 'e', ' '], " Me "@, seq![0, 0, 0, 0], 4)) by { reveal_with_fuel(crate::text::witnessed, 6); }
    assert(seq![' ', 'M', 'e', ' '].subrange(0, 4) =~= " Me "@);
    crate::text::lemma_replace_once(seq![' ', 'M', 'e', ' '], " Me "@, " ¤(Me) "@, 0, seq![], seq![0, 0, 0, 0]);
    assert(seq![' ', 'M', 'e', ' '].subrange(0, 0) + " ¤(Me) "@ + seq![' ', 'M', 'e', ' '].subrange(4, 4) =~= seq![' ', '\u{a4}', '(', 'M', 'e', ')', ' ']);
    assert(crate::text::witnessed(seq![' ', '\u{a4}', '(', 'M', 'e', ')', ' '], " Me,"@, seq![1, 0, 0, 0], 0)) by { reveal_with_fuel(crate::text::witnessed, 6); }
    crate::text::lemma_witnessed_none(seq![' ', '\u{a4}', '(', 'M', 'e', ')', ' '], " Me,"@, seq![1, 0, 0, 0], 0);
    crate::text::lemma_replace_none(seq![' ', '\u{a4}', '(', 'M', 'e', ')', ' '], " Me,"@, " ¤(Me),"@);
    assert(crate::text::witnessed(seq![' ', '\u{a4}', '(', 'M', 'e', ')', ' '], " Me."@, seq![1, 0, 0, 0], 0)) by { reveal_with_fuel(crate::text::witnessed, 6); }
    crate::text::lemma_witnessed_none(seq![' ', '\u{a4}', '(', 'M', 'e', ')', ' '], " Me."@, seq![1, 0, 0, 0], 0);
    crate::text::lemma_replace_none(seq![' ', '\u{a4}', '(', 'M', 'e', ')', ' '], " Me."@, " ¤(Me)."@);
    assert(crate::text::witnessed(seq![' ', '\u{a4}', '(', 'M', 'e', ')', ' '], "\nI "@, seq![0, 0, 0, 0, 0], 0)) by { reveal_with_fuel(crate::text::witnessed, 7); }
    crate::text::lemma_witnessed_none(seq![' ', '\u{a4}', '(', 'M', 'e', ')', ' '], "\nI "@, seq![0, 0, 0, 0, 0], 0);
    crate::text::lemma_replace_none(seq![' ', '\u{a4}', '(', 'M', 'e', ')', ' '], "\nI "@, "\n¤(I) "@);
    assert(crate::text::witnessed(seq![' ', '\u{a4}', '(', 'M', 'e', ')', ' '], ". I "@, seq![0, 0, 0, 0], 0)) by { reveal_with_fuel(crate::text::witnessed, 6); }
    crate::text::lemma_witnessed_none(seq![' ', '\u{a4}', '(', 'M', 'e', ')', ' '], ". I "@, seq![0, 0, 0, 0], 0);
    crate::text::lemma_replace_none(seq![' ', '\u{a4}', '(', 'M', 'e', ')', ' '], ". I "@, ". ¤(I) "@);
}

/// What group 4 makes of the middle of phrase 23.
proof fn lemma_phrase_23_group_4()
    ensures
        phrase_group_4(seq![' ', '\u{a4}', '(', 'M', 'e', ')', ' ']) == seq![' ', '\u{a4}', '(', 'M', 'e', ')', ' '],
{
    reveal(phrase_group_4);
    reveal_strlit(" I ");
    reveal_strlit(" I,");
    reveal_strlit(" I.");
    reveal_strlit(" ¤(i) ");
    reveal_strlit(" ¤(i),");
    reveal_strlit(" ¤(i).");
    reveal_strlit(". I,");
    reveal_strlit(". I.");
    reveal_strlit(". ¤(I),");
    reveal_strlit(". ¤(I). ");
    reveal_strlit("Cards ¤(I am) attached to");
    reveal_strlit("The card ¤(I am) attached to");
    reveal_strlit("cards ¤(I am) attached to");
    reveal_strlit("the card ¤(I am) attached to");
    assert(crate::text::witnessed(seq![' ', '\u{a4}', '(', 'M', 'e', ')', ' '], ". I,"@, seq![0, 0, 0, 0], 0)) by { reveal_with_fuel(crate::text::witnessed, 6); }
    crate::text::lemma_witnessed_none(seq![' ', '\u{a4}', '(', 'M', 'e', ')', ' '], ". I,"@, seq![0, 0, 0, 0], 0);
    crate::text::lemma_replace_none(seq![' ', '\u{a4}', '(', 'M', 'e', ')', ' '], ". I,"@, ". ¤(I),"@);
    assert(crate::text::witnessed(seq![' ', '\u{a4}', '(', 'M', 'e', ')', ' '], ". I."@, seq![0, 0, 0, 0], 0)) by { reveal_with_fuel(crate::text::witnessed, 6); }
    crate::text::lemma_witnessed_none(seq![' ', '\u{a4}', '(', 'M', 'e', ')', ' '], ". I."@, seq![0, 0, 0, 0], 0);
    crate::text::lemma_replace_none(seq![' ', '\u{a4}', '(', 'M', 'e', ')', ' '], ". I."@, ". ¤(I). "@);
    assert(crate::text::witnessed(seq![' ', '\u{a4}', '(', 'M', 'e', ')', ' '], " I "@, seq![1, 0, 0, 0, 0], 0)) by { reveal_with_fuel(crate::text::witnessed, 7); }
    crate::text::lemma_witnessed_none(seq![' ', '\u{a4}', '(', 'M', 'e', ')', ' '], " I "@, seq![1, 0, 0, 0, 0], 0);
    crate::text::lemma_replace_none(seq![' ', '\u{a4}', '(', 'M', 'e', ')', ' '], " I "@, " ¤(i) "@);
    assert(crate::text::witnessed(seq![' ', '\u{a4}', '(', 'M', 'e', ')', ' '], " I,"@, seq![1, 0, 0, 0, 0], 0)) by { reveal_with_fuel(crate::text::witnessed, 7); }
    crate::text::lemma_witnessed_none(seq![' ', '\u{a4}', '(', 'M', 'e', ')', ' '], " I,"@, seq![1, 0, 0, 0, 0], 0);
    crate::text::lemma_replace_none(seq![' ', '\u{a4}', '(', 'M', 'e', ')', ' '], " I,"@, " ¤(i),"@);
    assert(crate::text::witnessed(seq![' ', '\u{a4}', '(', 'M', 'e', ')', ' '], " I."@, seq![1, 0, 0, 0, 0], 0)) by { reveal_with_fuel(crate::text::witnessed, 7); }
    crate::text::lemma_witnessed_none(seq![' ', '\u{a4}', '(', 'M', 'e', ')', ' '], " I."@, seq![1, 0, 0, 0, 0], 0);
    crate::text::lemma_replace_none(seq![' ', '\u{a4}', '(', 'M', 'e', ')', ' '], " I."@, " ¤(i)."@);
    assert(crate::text::witnessed(seq![' ', '\u{a4}', '(', 'M', 'e', ')', ' '], "Cards ¤(I am) attached to"@, seq![], 0)) by { reveal_with_fuel(crate::text::witnessed, 2); }
    crate::text::lemma_witnessed_none(seq![' ', '\u{a4}', '(', 'M', 'e', ')', ' '], "Cards ¤(I am) attached to"@, seq![], 0);
    crate::text::lemma_replace_none(seq![' ', '\u{a4}', '(', 'M', 'e', ')', ' '], "Cards ¤(I am) attached to"@, "The card ¤(I am) attached to"@);
    assert(crate::text::witnessed(seq![' ', '\u{a4}', '(', 'M', 'e', ')', ' '], "cards ¤(I am) attached to"@, seq![], 0)) by { reveal_with_fuel(crate::text::witnessed, 2); }
    crate::text::lemma_witnessed_none(seq![' ', '\u{a4}', '(', 'M', 'e', ')', ' '], "cards ¤(I am) attached to"@, seq![], 0);
    crate::text::lemma_replace_none(seq![' ', '\u{a4}', '(', 'M', 'e', ')', ' '], "cards ¤(I am) attached to"@, "the card ¤(I am) attached to"@);
}

/// Between digits, phrase 23 becomes what the card text makes of it.
proof fn lemma_phrase_23(x: Seq<char>, y: Seq<char>)
    requires
        all_digits(x),
        all_digits(y),
        trim(x + " Me "@ + y) == x + " Me "@ + y,
    ensures
        phrase_commands(x + " Me "@ + y) == Some(x + seq![' ', '\u{a4}', '(', 'M', 'e', ')', ' '] + y),
{
    reveal_strlit(" Me ");
    assert(" Me "@ =~= seq![' ', 'M', 'e', ' ']);
    reveal_strlit("Card with");
    reveal_strlit("card with");
    reveal_strlit("Cards with");
    reveal_strlit("cards with");
    let m0 = seq![' ', 'M', 'e', ' '];
    lemma_group_framed_0(x, m0, y);
    lemma_phrase_23_group_0();
    let m1 = phrase_group_0(m0);
    lemma_group_framed_1(x, m1, y);
    lemma_phrase_23_group_1();
    let m2 = phrase_group_1(m1);
    lemma_group_framed_2(x, m2, y);
    lemma_phrase_23_group_2();
    let m3 = phrase_group_2(m2);
    lemma_group_framed_3(x, m3, y);
    lemma_phrase_23_group_3();
    let m4 = phrase_group_3(m3);
    lemma_group_framed_4(x, m4, y);
    lemma_phrase_23_group_4();
    let m5 = phrase_group_4(m4);
    assert(crate::text::witnessed(seq![' ', '\u{a4}', '(', 'M', 'e', ')', ' '], "Card with"@, seq![], 0)) by { reveal_with_fuel(crate::text::witnessed, 2); }
    crate::text::lemma_witnessed_none(seq![' ', '\u{a4}', '(', 'M', 'e', ')', ' '], "Card with"@, seq![], 0);
    assert(digit_free("Card with"@));
    crate::text::lemma_replace_framed(x, seq![' ', '\u{a4}', '(', 'M', 'e', ')', ' '], y, "Card with"@, "Card with"@);
    assert(with_marker(WithPhrase::Card) == "Card with"@);
    assert(crate::text::witnessed(seq![' ', '\u{a4}', '(', 'M', 'e', ')', ' '], "card with"@, seq![], 0)) by { reveal_with_fuel(crate::text::witnessed, 2); }
    crate::text::lemma_witnessed_none(seq![' ', '\u{a4}', '(', 'M', 'e', ')', ' '], "card with"@, seq![], 0);
    assert(digit_free("card with"@));
    crate::text::lemma_replace_framed(x, seq![' ', '\u{a4}', '(', 'M', 'e', ')', ' '], y, "card with"@, "card with"@);
    assert(with_marker(WithPhrase::CardLower) == "card with"@);
    assert(crate::text::witnessed(seq![' ', '\u{a4}', '(', 'M', 'e', ')', ' '], "Cards with"@, seq![], 0)) by { reveal_with_fuel(crate::text::witnessed, 2); }
    crate::text::lemma_witnessed_none(seq![' ', '\u{a4}', '(', 'M', 'e', ')', ' '], "Cards with"@, seq![], 0);
    assert(digit_free("Cards with"@));
    crate::text::lemma_replace_framed(x, seq![' ', '\u{a4}', '(', 'M', 'e', ')', ' '], y, "Cards with"@, "Cards with"@);
    assert(with_marker(WithPhrase::Cards) == "Cards with"@);
    assert(crate::text::witnessed(seq![' ', '\u{a4}', '(', 'M', 'e', ')', ' '], "cards with"@, seq![], 0)) by { reveal_with_fuel(crate::text::witnessed, 2); }
    crate::text::lemma_witnessed_none(seq![' ', '\u{a4}', '(', 'M', 'e', ')', ' '], "cards with"@, seq![], 0);
    assert(digit_free("cards with"@));
    crate::text::lemma_replace_framed(x, seq![' ', '\u{a4}', '(', 'M', 'e', ')', ' '], y, "cards with"@, "cards with"@);
    assert(with_marker(WithPhrase::CardsLower) == "cards with"@);
}

/// What group 0 makes of the middle of phrase 24.
proof fn lemma_phrase_24_group_0()
    ensures
        phrase_group_0(seq![' ', 'M', 'e', ',']) == seq![' ', 'M', 'e', ','],
{
    reveal(phrase_group_0);
    reveal_strlit(" ");
    reveal_strlit("  ");
    reveal_strlit(" mana ");
    reveal_strlit(" ¤(mana) ");
    reveal_strlit("Boost");
    reveal_strlit("Experience");
    reveal_strlit("\n ");
    reveal_strlit("boost");
    reveal_strlit("experience");
    reveal_strlit("¤(Boost)");
    reveal_strlit("¤(Xp)");
    reveal_strlit("¤(boost)");
    reveal_strlit("¤(xp)");
    assert(crate::text::witnessed(seq![' ', 'M', 'e', ','], "\n "@, seq![0, 0, 0], 0)) by { reveal_with_fuel(crate::text::witnessed, 5); }
    crate::text::lemma_witnessed_none(seq![' ', 'M', 'e', ','], "\n "@, seq![0, 0, 0], 0);
    crate::text::lemma_replace_none(seq![' ', 'M', 'e', ','], "\n "@, " "@);
    assert(crate::text::witnessed(seq![' ', 'M', 'e', ','], "  "@, seq![1, 0, 0], 0)) by { reveal_with_fuel(crate::text::witnessed, 5); }
    crate::text::lemma_witnessed_none(seq![' ', 'M', 'e', ','], "  "@, seq![1, 0, 0], 0);
    crate::text::lemma_replace_none(seq![' ', 'M', 'e', ','], "  "@, " "@);
    assert(crate::text::witnessed(seq![' ', 'M', 'e', ','], "Boost"@, seq![], 0)) by { reveal_with_fuel(crate::text::witnessed, 2); }
    crate::text::lemma_witnessed_none(seq![' ', 'M', 'e', ','], "Boost"@, seq![], 0);
    crate::text::lemma_replace_none(seq![' ', 'M', 'e', ','], "Boost"@, "¤(Boost)"@);
    assert(crate::text::witnessed(seq![' ', 'M', 'e', ','], "boost"@, seq![], 0)) by { reveal_with_fuel(crate::text::witnessed, 2); }
    crate::text::lemma_witnessed_none(seq![' ', 'M', 'e', ','], "boost"@, seq![], 0);
    crate::text::lemma_replace_none(seq![' ', 'M', 'e', ','], "boost"@, "¤(boost)"@);
    assert(crate::text::witnessed(seq![' ', 'M', 'e', ','], "experience"@, seq![], 0)) by { reveal_with_fuel(crate::text::witnessed, 2); }
    crate::text::lemma_witnessed_none(seq![' ', 'M', 'e', ','], "experience"@, seq![], 0);
    crate::text::lemma_replace_none(seq![' ', 'M', 'e', ','], "experience"@, "¤(xp)"@);
    assert(crate::text::witnessed(seq![' ', 'M', 'e', ','], "Experience"@, seq![], 0)) by { reveal_with_fuel(crate::text::witnessed, 2); }
    crate::text::lemma_witnessed_none(seq![' ', 'M', 'e', ','], "Experience"@, seq![], 0);
    crate::text::lemma_replace_none(seq![' ', 'M', 'e', ','], "Experience"@, "¤(Xp)"@);
    assert(crate::text::witnessed(seq![' ', 'M', 'e', ','], " mana "@, seq![], 0)) by { reveal_with_fuel(crate::text::witnessed, 2); }
    crate::text::lemma_witnessed_none(seq![' ', 'M', 'e', ','], " mana "@, seq![], 0);
    crate::text::lemma_replace_none(seq![' ', 'M', 'e', ','], " mana "@, " ¤(mana) "@);
}

/// What group 1 makes of the middle of phrase 24.
proof fn lemma_phrase_24_group_1()
    ensures
        phrase_group_1(seq![' ', 'M', 'e', ',']) == seq![' ', 'M', 'e', ','],
{
    reveal(phrase_group_1);
    reveal_strlit(" Mana ");
    reveal_strlit(" Mana,");
    reveal_strlit(" Mana.");
    reveal_strlit(" mana,");
    reveal_strlit(" mana.");
    reveal_strlit(" ¤(Mana) ");
    reveal_strlit(" ¤(Mana),");
    reveal_strlit(" ¤(Mana).");
    reveal_strlit(" ¤(mana),");
    reveal_strlit(" ¤(mana).");
    reveal_strlit("I am");
    reveal_strlit("I'm");
    reveal_strlit("I’m");
    assert(crate::text::witnessed(seq![' ', 'M', 'e', ','], " mana."@, seq![], 0)) by { reveal_with_fuel(crate::text::witnessed, 2); }
    crate::text::lemma_witnessed_none(seq![' ', 'M', 'e', ','], " mana."@, seq![], 0);
    crate::text::lemma_replace_none(seq![' ', 'M', 'e', ','], " mana."@, " ¤(mana)."@);
    assert(crate::text::witnessed(seq![' ', 'M', 'e', ','], " mana,"@, seq![], 0)) by { reveal_with_fuel(crate::text::witnessed, 2); }
    crate::text::lemma_witnessed_none(seq![' ', 'M', 'e', ','], " mana,"@, seq![], 0);
    crate::text::lemma_replace_none(seq![' ', 'M', 'e', ','], " mana,"@, " ¤(mana),"@);
    assert(crate::text::witnessed(seq![' ', 'M', 'e', ','], " Mana "@, seq![], 0)) by { reveal_with_fuel(crate::text::witnessed, 2); }
    crate::text::lemma_witnessed_none(seq![' ', 'M', 'e', ','], " Mana "@, seq![], 0);
    crate::text::lemma_replace_none(seq![' ', 'M', 'e', ','], " Mana "@, " ¤(Mana) "@);
    assert(crate::text::witnessed(seq![' ', 'M', 'e', ','], " Mana."@, seq![], 0)) by { reveal_with_fuel(crate::text::witnessed, 2); }
    crate::text::lemma_witnessed_none(seq![' ', 'M', 'e', ','], " Mana."@, seq![], 0);
    crate::text::lemma_replace_none(seq![' ', 'M', 'e', ','], " Mana."@, " ¤(Mana)."@);
    assert(crate::text::witnessed(seq![' ', 'M', 'e', ','], " Mana,"@, seq![], 0)) by { reveal_with_fuel(crate::text::witnessed, 2); }
    crate::text::lemma_witnessed_none(seq![' ', 'M', 'e', ','], " Mana,"@, seq![], 0);
    crate::text::lemma_replace_none(seq![' ', 'M', 'e', ','], " Mana,"@, " ¤(Mana),"@);
    assert(crate::text::witnessed(seq![' ', 'M', 'e', ','], "I’m"@, seq![0, 0], 0)) by { reveal_with_fuel(crate::text::witnessed, 4); }
    crate::text::lemma_witnessed_none(seq![' ', 'M', 'e', ','], "I’m"@, seq![0, 0], 0);
    crate::text::lemma_replace_none(seq![' ', 'M', 'e', ','], "I’m"@, "I am"@);
    assert(crate::text::witnessed(seq![' ', 'M', 'e', ','], "I'm"@, seq![0, 0], 0)) by { reveal_with_fuel(crate::text::witnessed, 4); }
    crate::text::lemma_witnessed_none(seq![' ', 'M', 'e', ','], "I'm"@, seq![0, 0], 0);
    crate::text::lemma_replace_none(seq![' ', 'M', 'e', ','], "I'm"@, "I am"@);
}

/// What group 2 makes of the middle of phrase 24.
proof fn lemma_phrase_24_group_2()
    ensures
        phrase_group_2(seq![' ', 'M', 'e', ',']) == seq![' ', 'M', 'e', ','],
{
    reveal(phrase_group_2);
    reveal_strlit(" I am ");
    reveal_strlit(" I have");
    reveal_strlit(" me ");
    reveal_strlit(" my ");
    reveal_strlit(" ¤(I have)");
    reveal_strlit(" ¤(i am) ");
    reveal_strlit(" ¤(i have)");
    reveal_strlit(" ¤(me) ");
    reveal_strlit(" ¤(my) ");
    reveal_strlit(". I am ");
    reveal_strlit(". I have");
    reveal_strlit(". My ");
    reveal_strlit(". ¤(I am) ");
    reveal_strlit(". ¤(My) ");
    assert(crate::text::witnessed(seq![' ', 'M', 'e', ','], ". I am "@, seq![], 0)) by { reveal_with_fuel(crate::text::witnessed, 2); }
    crate::text::lemma_witnessed_none(seq![' ', 'M', 'e', ','], ". I am "@, seq![], 0);
    crate::text::lemma_replace_none(seq![' ', 'M', 'e', ','], ". I am "@, ". ¤(I am) "@);
    assert(crate::text::witnessed(seq![' ', 'M', 'e', ','], " I am "@, seq![], 0)) by { reveal_with_fuel(crate::text::witnessed, 2); }
    crate::text::lemma_witnessed_none(seq![' ', 'M', 'e', ','], " I am "@, seq![], 0);
    crate::text::lemma_replace_none(seq![' ', 'M', 'e', ','], " I am "@, " ¤(i am) "@);
    assert(crate::text::witnessed(seq![' ', 'M', 'e', ','], " I have"@, seq![], 0)) by { reveal_with_fuel(crate::text::witnessed, 2); }
    crate::text::lemma_witnessed_none(seq![' ', 'M', 'e', ','], " I have"@, seq![], 0);
    crate::text::lemma_replace_none(seq![' ', 'M', 'e', ','], " I have"@, " ¤(i have)"@);
    assert(crate::text::witnessed(seq![' ', 'M', 'e', ','], ". I have"@, seq![], 0)) by { reveal_with_fuel(crate::text::witnessed, 2); }
    crate::text::lemma_witnessed_none(seq![' ', 'M', 'e', ','], ". I have"@, seq![], 0);
    crate::text::lemma_replace_none(seq![' ', 'M', 'e', ','], ". I have"@, " ¤(I have)"@);
    assert(crate::text::witnessed(seq![' ', 'M', 'e', ','], " my "@, seq![1], 0)) by { reveal_with_fuel(crate::text::witnessed, 3); }
    crate::text::lemma_witnessed_none(seq![' ', 'M', 'e', ','], " my "@, seq![1], 0);
    crate::text::lemma_replace_none(seq![' ', 'M', 'e', ','], " my "@, " ¤(my) "@);
    assert(crate::text::witnessed(seq![' ', 'M', 'e', ','], ". My "@, seq![], 0)) by { reveal_with_fuel(crate::text::witnessed, 2); }
    crate::text::lemma_witnessed_none(seq![' ', 'M', 'e', ','], ". My "@, seq![], 0);
    crate::text::lemma_replace_none(seq![' ', 'M', 'e', ','], ". My "@, ". ¤(My) "@);
    assert(crate::text::witnessed(seq![' ', 'M', 'e', ','], " me "@, seq![1], 0)) by { reveal_with_fuel(crate::text::witnessed, 3); }
    crate::text::lemma_witnessed_none(seq![' ', 'M', 'e', ','], " me "@, seq![1], 0);
    crate::text::lemma_replace_none(seq![' ', 'M', 'e', ','], " me "@, " ¤(me) "@);
}

/// What group 3 makes of the middle of phrase 24.
proof fn lemma_phrase_24_group_3()
    ensures
        phrase_group_3(seq![' ', 'M', 'e', ',']) == seq![' ', '\u{a4}', '(', 'M', 'e', ')', ','],
{
    reveal(phrase_group_3);
    reveal_strlit(" Me ");
    reveal_strlit(" Me,");
    reveal_strlit(" Me.");
    reveal_strlit(" me,");
    reveal_strlit(" me.");
    reveal_strlit(" ¤(Me) ");
    reveal_strlit(" ¤(Me),");
    reveal_strlit(" ¤(Me).");
    reveal_strlit(" ¤(me),");
    reveal_strlit(" ¤(me).");
    reveal_strlit(". I ");
    reveal_strlit(". ¤(I) ");
    reveal_strlit("\nI ");
    reveal_strlit("\n¤(I) ");
    assert(crate::text::witnessed(seq![' ', 'M', 'e', ','], " me,"@, seq![1], 0)) by { reveal_with_fuel(crate::text::witnessed, 3); }
    crate::text::lemma_witnessed_none(seq![' ', 'M', 'e', ','], " me,"@, seq![1], 0);
    crate::text::lemma_replace_none(seq![' ', 'M', 'e', ','], " me,"@, " ¤(me),"@);
    assert(crate::text::witnessed(seq![' ', 'M', 'e', ','], " me."@, seq![1], 0)) by { reveal_with_fuel(crate::text::witnessed, 3); }
    crate::text::lemma_witnessed_none(seq![' ', 'M', 'e', ','], " me."@, seq![1], 0);
    crate::text::lemma_replace_none(seq![' ', 'M', 'e', ','], " me."@, " ¤(me)."@);
    assert(crate::text::witnessed(seq![' ', 'M', 'e', ','], " Me "@, seq![3], 0)) by { reveal_with_fuel(crate::text::witnessed, 3); }
    crate::text::lemma_witnessed_none(seq![' ', 'M', 'e', ','], " Me "@, seq![3], 0);
    crate::text::lemma_replace_none(seq![' ', 'M', 'e', ','], " Me "@, " ¤(Me) "@);
    assert(crate::text::witnessed_until(seq![' ', 'M', 'e', ','], " Me,"@, seq![], 0, 0)) by { reveal_with_fuel(crate::text::witnessed_until, 2); }
    assert(crate::text::witnessed(seq![' ', 'M', 'e', ','], " Me,"@, seq![0, 0, 0, 0], 4)) by { reveal_with_fuel(crate::text::witnessed, 6); }
    assert(seq![' ', 'M', 'e', ','].subrange(0, 4) =~= " Me,"@);
    crate::text::lemma_replace_once(seq![' ', 'M', 'e', ','], " Me,"@, " ¤(Me),"@, 0, seq![], seq![0, 0, 0, 0]);
    assert(seq![' ', 'M', 'e', ','].subrange(0, 0) + " ¤(Me),"@ + seq![' ', 'M', 'e', ','].subrange(4, 4) =~= seq![' ', '\u{a4}', '(', 'M', 'e', ')', ',']);
    assert(crate::text::witnessed(seq![' ', '\u{a4}', '(', 'M', 'e', ')', ','], " Me."@, seq![1, 0, 0, 0], 0)) by { reveal_with_fuel(crate::text::witnessed, 6); }
    crate::text::lemma_witnessed_none(seq![' ', '\u{a4}', '(', 'M', 'e', ')', ','], " Me."@, seq![1, 0, 0, 0], 0);
    crate::text::lemma_replace_none(seq![' ', '\u{a4}', '(', 'M', 'e', ')', ','], " Me."@, " ¤(Me)."@);
    assert(crate::text::witnessed(seq![' ', '\u{a4}', '(', 'M', 'e', ')', ','], "\nI "@, seq![0, 0, 0, 0, 0], 0)) by { reveal_with_fuel(crate::text::witnessed, 7); }
    crate::text::lemma_witnessed_none(seq![' ', '\u{a4}', '(', 'M', 'e', ')', ','], "\nI "@, seq![0, 0, 0, 0, 0], 0);
    crate::text::lemma_replace_none(seq![' ', '\u{a4}', '(', 'M', 'e', ')', ','], "\nI "@, "\n¤(I) "@);
    assert(crate::text::witnessed(seq![' ', '\u{a4}', '(', 'M', 'e', ')', ','], ". I "@, seq![0, 0, 0, 0], 0)) by { reveal_with_fuel(crate::text::witnessed, 6); }
    crate::text::lemma_witnessed_none(seq![' ', '\u{a4}', '(', 'M', 'e', ')', ','], ". I "@, seq![0, 0, 0, 0], 0);
    crate::text::lemma_replace_none(seq![' ', '\u{a4}', '(', 'M', 'e', ')', ','], ". I "@, ". ¤(I) "@);
}

/// What group 4 makes of the middle of phrase 24.
proof fn lemma_phrase_24_group_4()
    ensures
        phrase_group_4(seq![' ', '\u{a4}', '(', 'M', 'e', ')', ',']) == seq![' ', '\u{a4}', '(', 'M', 'e', ')', ','],
{
    reveal(phrase_group_4);
    reveal_strlit(" I ");
    reveal_strlit(" I,");
    reveal_strlit(" I.");
    reveal_strlit(" ¤(i) ");
    reveal_strlit(" ¤(i),");
    reveal_strlit(" ¤(i).");
    reveal_strlit(". I,");
    reveal_strlit(". I.");
    reveal_strlit(". ¤(I),");
    reveal_strlit(". ¤(I). ");
    reveal_strlit("Cards ¤(I am) attached to");
    reveal_strlit("The card ¤(I am) attached to");
    reveal_strlit("cards ¤(I am) attached to");
    reveal_strlit("the card ¤(I am) attached to");
    assert(crate::text::witnessed(seq![' ', '\u{a4}', '(', 'M', 'e', ')', ','], ". I,"@, seq![0, 0, 0, 0], 0)) by { reveal_with_fuel(crate::text::witnessed, 6); }
    crate::text::lemma_witnessed_none(seq![' ', '\u{a4}', '(', 'M', 'e', ')', ','], ". I,"@, seq![0, 0, 0, 0], 0);
    crate::text::lemma_replace_none(seq![' ', '\u{a4}', '(', 'M', 'e', ')', ','], ". I,"@, ". ¤(I),"@);
    assert(crate::text::witnessed(seq![' ', '\u{a4}', '(', 'M', 'e', ')', ','], ". I."@, seq![0, 0, 0, 0], 0)) by { reveal_with_fuel(crate::text::witnessed, 6); }
    crate::text::lemma_witnessed_none(seq![' ', '\u{a4}', '(', 'M', 'e', ')', ','], ". I."@, seq![0, 0, 0, 0], 0);
    crate::text::lemma_replace_none(seq![' ', '\u{a4}', '(', 'M', 'e', ')', ','], ". I."@, ". ¤(I). "@);
    assert(crate::text::witnessed(seq![' ', '\u{a4}', '(', 'M', 'e', ')', ','], " I "@, seq![1, 0, 0, 0, 0], 0)) by { reveal_with_fuel(crate::text::witnessed, 7); }
    crate::text::lemma_witnessed_none(seq![' ', '\u{a4}', '(', 'M', 'e', ')', ','], " I "@, seq![1, 0, 0, 0, 0], 0);
    crate::text::lemma_replace_none(seq![' ', '\u{a4}', '(', 'M', 'e', ')', ','], " I "@, " ¤(i) "@);
    assert(crate::text::witnessed(seq![' ', '\u{a4}', '(', 'M', 'e', ')', ','], " I,"@, seq![1, 0, 0, 0, 0], 0)) by { reveal_with_fuel(crate::text::witnessed, 7); }
    crate::text::lemma_witnessed_none(seq![' ', '\u{a4}', '(', 'M', 'e', ')', ','], " I,"@, seq![1, 0, 0, 0, 0], 0);
    crate::text::lemma_replace_none(seq![' ', '\u{a4}', '(', 'M', 'e', ')', ','], " I,"@, " ¤(i),"@);
    assert(crate::text::witnessed(seq![' ', '\u{a4}', '(', 'M', 'e', ')', ','], " I."@, seq![1, 0, 0, 0, 0], 0)) by { reveal_with_fuel(crate::text::witnessed, 7); }
    crate::text::lemma_witnessed_none(seq![' ', '\u{a4}', '(', 'M', 'e', ')', ','], " I."@, seq![1, 0, 0, 0, 0], 0);
    crate::text::lemma_replace_none(seq![' ', '\u{a4}', '(', 'M', 'e', ')', ','], " I."@, " ¤(i)."@);
    assert(crate::text::witnessed(seq![' ', '\u{a4}', '(', 'M', 'e', ')', ','], "Cards ¤(I am) attached to"@, seq![], 0)) by { reveal_with_fuel(crate::text::witnessed, 2); }
    crate::text::lemma_witnessed_none(seq![' ', '\u{a4}', '(', 'M', 'e', ')', ','], "Cards ¤(I am) attached to"@, seq![], 0);
    crate::text::lemma_replace_none(seq![' ', '\u{a4}', '(', 'M', 'e', ')', ','], "Cards ¤(I am) attached to"@, "The card ¤(I am) attached to"@);
    assert(crate::text::witnessed(seq![' ', '\u{a4}', '(', 'M', 'e', ')', ','], "cards ¤(I am) attached to"@, seq![], 0)) by { reveal_with_fuel(crate::text::witnessed, 2); }
    crate::text::lemma_witnessed_none(seq![' ', '\u{a4}', '(', 'M', 'e', ')', ','], "cards ¤(I am) attached to"@, seq![], 0);
    crate::text::lemma_replace_none(seq![' ', '\u{a4}', '(', 'M', 'e', ')', ','], "cards ¤(I am) attached to"@, "the card ¤(I am) attached to"@);
}

/// Between digits, phrase 24 becomes what the card text makes of it.
proof fn lemma_phrase_24(x: Seq<char>, y: Seq<char>)
    requires
        all_digits(x),
        all_digits(y),
        trim(x + " Me,"@ + y) == x + " Me,"@ + y,
    ensures
        phrase_commands(x + " Me,"@ + y) == Some(x + seq![' ', '\u{a4}', '(', 'M', 'e', ')', ','] + y),
{
    reveal_strlit(" Me,");
    assert(" Me,"@ =~= seq![' ', 'M', 'e', ',']);
    reveal_strlit("Card with");
    reveal_strlit("card with");
    reveal_strlit("Cards with");
    reveal_strlit("cards with");
    let m0 = seq![' ', 'M', 'e', ','];
    lemma_group_framed_0(x, m0, y);
    lemma_phrase_24_group_0();
    let m1 = phrase_group_0(m0);
    lemma_group_framed_1(x, m1, y);
    lemma_phrase_24_group_1();
    let m2 = phrase_group_1(m1);
    lemma_group_framed_2(x, m2, y);
    lemma_phrase_24_group_2();
    let m3 = phrase_group_2(m2);
    lemma_group_framed_3(x, m3, y);
    lemma_phrase_24_group_3();
    let m4 = phrase_group_3(m3);
    lemma_group_framed_4(x, m4, y);
    lemma_phrase_24_group_4();
    let m5 = phrase_group_4(m4);
    assert(crate::text::witnessed(seq![' ', '\u{a4}', '(', 'M', 'e', ')', ','], "Card with"@, seq![], 0)) by { reveal_with_fuel(crate::text::witnessed, 2); }
    crate::text::lemma_witnessed_none(seq![' ', '\u{a4}', '(', 'M', 'e', ')', ','], "Card with"@, seq![], 0);
    assert(digit_free("Card with"@));
    crate::text::lemma_replace_framed(x, seq![' ', '\u{a4}', '(', 'M', 'e', ')', ','], y, "Card with"@, "Card with"@);
    assert(with_marker(WithPhrase::Card) == "Card with"@);
    assert(crate::text::witnessed(seq![' ', '\u{a4}', '(', 'M', 'e', ')', ','], "card with"@, seq![], 0)) by { reveal_with_fuel(crate::text::witnessed, 2); }
    crate::text::lemma_witnessed_none(seq![' ', '\u{a4}', '(', 'M', 'e', ')', ','], "card with"@, seq![], 0);
    assert(digit_free("card with"@));
    crate::text::lemma_replace_framed(x, seq![' ', '\u{a4}', '(', 'M', 'e', ')', ','], y, "card with"@, "card with"@);
    assert(with_marker(WithPhrase::CardLower) == "card with"@);
    assert(crate::text::witnessed(seq![' ', '\u{a4}', '(', 'M', 'e', ')', ','], "Cards with"@, seq![], 0)) by { reveal_with_fuel(crate::text::witnessed, 2); }
    crate::text::lemma_witnessed_none(seq![' ', '\u{a4}', '(', 'M', 'e', ')', ','], "Cards with"@, seq![], 0);
    assert(digit_free("Cards with"@));
    crate::text::lemma_replace_framed(x, seq![' ', '\u{a4}', '(', 'M', 'e', ')', ','], y, "Cards with"@, "Cards with"@);
    assert(with_marker(WithPhrase::Cards) == "Cards with"@);
    assert(crate::text::witnessed(seq![' ', '\u{a4}', '(', 'M', 'e', ')', ','], "cards with"@, seq![], 0)) by { reveal_with_fuel(crate::text::witnessed, 2); }
    crate::text::lemma_witnessed_none(seq![' ', '\u{a4}', '(', 'M', 'e', ')', ','], "cards with"@, seq![], 0);
    assert(digit_free("cards with"@));
    crate::text::lemma_replace_framed(x, seq![' ', '\u{a4}', '(', 'M', 'e', ')', ','], y, "cards with"@, "cards with"@);
    assert(with_marker(WithPhrase::CardsLower) == "cards with"@);
}

/// What group 0 makes of the middle of phrase 25.
proof fn lemma_phrase_25_group_0()
    ensures
        phrase_group_0(seq![' ', 'M', 'e', '.']) == seq![' ', 'M', 'e', '.'],
{
    reveal(phrase_group_0);
    reveal_strlit(" ");
    reveal_strlit("  ");
    reveal_strlit(" mana ");
    reveal_strlit(" ¤(mana) ");
    reveal_strlit("Boost");
    reveal_strlit("Experience");
    reveal_strlit("\n ");
    reveal_strlit("boost");
    reveal_strlit("experience");
    reveal_strlit("¤(Boost)");
    reveal_strlit("¤(Xp)");
    reveal_strlit("¤(boost)");
    reveal_strlit("¤(xp)");
    assert(crate::text::witnessed(seq![' ', 'M', 'e', '.'], "\n "@, seq![0, 0, 0], 0)) by { reveal_with_fuel(crate::text::witnessed, 5); }
    crate::text::lemma_witnessed_none(seq![' ', 'M', 'e', '.'], "\n "@, seq![0, 0, 0], 0);
    crate::text::lemma_replace_none(seq![' ', 'M', 'e', '.'], "\n "@, " "@);
    assert(crate::text::witnessed(seq![' ', 'M', 'e', '.'], "  "@, seq![1, 0, 0], 0)) by { reveal_with_fuel(crate::text::witnessed, 5); }
    crate::text::lemma_witnessed_none(seq![' ', 'M', 'e', '.'], "  "@, seq![1, 0, 0], 0);
    crate::text::lemma_replace_none(seq![' ', 'M', 'e', '.'], "  "@, " "@);
    assert(crate::text::witnessed(seq![' ', 'M', 'e', '.'], "Boost"@, seq![], 0)) by { reveal_with_fuel(crate::text::witnessed, 2); }
    crate::text::lemma_witnessed_none(seq![' ', 'M', 'e', '.'], "Boost"@, seq![], 0);
    crate::text::lemma_replace_none(seq![' ', 'M', 'e', '.'], "Boost"@, "¤(Boost)"@);
    assert(crate::text::witnessed(seq![' ', 'M', 'e', '.'], "boost"@, seq![], 0)) by { reveal_with_fuel(crate::text::witnessed, 2); }
    crate::text::lemma_witnessed_none(seq![' ', 'M', 'e', '.'], "boost"@, seq![], 0);
    crate::text::lemma_replace_none(seq![' ', 'M', 'e', '.'], "boost"@, "¤(boost)"@);
    assert(crate::text::witnessed(seq![' ', 'M', 'e', '.'], "experience"@, seq![], 0)) by { reveal_with_fuel(crate::text::witnessed, 2); }
    crate::text::lemma_witnessed_none(seq![' ', 'M', 'e', '.'], "experience"@, seq![], 0);
    crate::text::lemma_replace_none(seq![' ', 'M', 'e', '.'], "experience"@, "¤(xp)"@);
    assert(crate::text::witnessed(seq![' ', 'M', 'e', '.'], "Experience"@, seq![], 0)) by { reveal_with_fuel(crate::text::witnessed, 2); }
    crate::text::lemma_witnessed_none(seq![' ', 'M', 'e', '.'], "Experience"@, seq![], 0);
    crate::text::lemma_replace_none(seq![' ', 'M', 'e', '.'], "Experience"@, "¤(Xp)"@);
    assert(crate::text::witnessed(seq![' ', 'M', 'e', '.'], " mana "@, seq![], 0)) by { reveal_with_fuel(crate::text::witnessed, 2); }
    crate::text::lemma_witnessed_none(seq![' ', 'M', 'e', '.'], " mana "@, seq![], 0);
    crate::text::lemma_replace_none(seq![' ', 'M', 'e', '.'], " mana "@, " ¤(mana) "@);
}

/// What group 1 makes of the middle of phrase 25.
proof fn lemma_phrase_25_group_1()
    ensures
        phrase_group_1(seq![' ', 'M', 'e', '.']) == seq![' ', 'M', 'e', '.'],
{
    reveal(phrase_group_1);
    reveal_strlit(" Mana ");
    reveal_strlit(" Mana,");
    reveal_strlit(" Mana.");
    reveal_strlit(" mana,");
    reveal_strlit(" mana.");
    reveal_strlit(" ¤(Mana) ");
    reveal_strlit(" ¤(Mana),");
    reveal_strlit(" ¤(Mana).");
    reveal_strlit(" ¤(mana),");
    reveal_strlit(" ¤(mana).");
    reveal_strlit("I am");
    reveal_strlit("I'm");
    reveal_strlit("I’m");
    assert(crate::text::witnessed(seq![' ', 'M', 'e', '.'], " mana."@, seq![], 0)) by { reveal_with_fuel(crate::text::witnessed, 2); }
    crate::text::lemma_witnessed_none(seq![' ', 'M', 'e', '.'], " mana."@, seq![], 0);
    crate::text::lemma_replace_none(seq![' ', 'M', 'e', '.'], " mana."@, " ¤(mana)."@);
    assert(crate::text::witnessed(seq![' ', 'M', 'e', '.'], " mana,"@, seq![], 0)) by { reveal_with_fuel(crate::text::witnessed, 2); }
    crate::text::lemma_witnessed_none(seq![' ', 'M', 'e', '.'], " mana,"@, seq![], 0);
    crate::text::lemma_replace_none(seq![' ', 'M', 'e', '.'], " mana,"@, " ¤(mana),"@);
    assert(crate::text::witnessed(seq![' ', 'M', 'e', '.'], " Mana "@, seq![], 0)) by { reveal_with_fuel(crate::text::witnessed, 2); }
    crate::text::lemma_witnessed_none(seq![' ', 'M', 'e', '.'], " Mana "@, seq![], 0);
    crate::text::lemma_replace_none(seq![' ', 'M', 'e', '.'], " Mana "@, " ¤(Mana) "@);
    assert(crate::text::witnessed(seq![' ', 'M', 'e', '.'], " Mana."@, seq![], 0)) by { reveal_with_fuel(crate::text::witnessed, 2); }
    crate::text::lemma_witnessed_none(seq![' ', 'M', 'e', '.'], " Mana."@, seq![], 0);
    crate::text::lemma_replace_none(seq![' ', 'M', 'e', '.'], " Mana."@, " ¤(Mana)."@);
    assert(crate::text::witnessed(seq![' ', 'M', 'e', '.'], " Mana,"@, seq![], 0)) by { reveal_with_fuel(crate::text::witnessed, 2); }
    crate::text::lemma_witnessed_none(seq![' ', 'M', 'e', '.'], " Mana,"@, seq![], 0);
    crate::text::lemma_replace_none(seq![' ', 'M', 'e', '.'], " Mana,"@, " ¤(Mana),"@);
    assert(crate::text::witnessed(seq![' ', 'M', 'e', '.'], "I’m"@, seq![0, 0], 0)) by { reveal_with_fuel(crate::text::witnessed, 4); }
    crate::text::lemma_witnessed_none(seq![' ', 'M', 'e', '.'], "I’m"@, seq![0, 0], 0);
    crate::text::lemma_replace_none(seq![' ', 'M', 'e', '.'], "I’m"@, "I am"@);
    assert(crate::text::witnessed(seq![' ', 'M', 'e', '.'], "I'm"@, seq![0, 0], 0)) by { reveal_with_fuel(crate::text::witnessed, 4); }
    crate::text::lemma_witnessed_none(seq![' ', 'M', 'e', '.'], "I'm"@, seq![0, 0], 0);
    crate::text::lemma_replace_none(seq![' ', 'M', 'e', '.'], "I'm"@, "I am"@);
}

/// What group 2 makes of the middle of phrase 25.
proof fn lemma_phrase_25_group_2()
    ensures
        phrase_group_2(seq![' ', 'M', 'e', '.']) == seq![' ', 'M', 'e', '.'],
{
    reveal(phrase_group_2);
    reveal_strlit(" I am ");
    reveal_strlit(" I have");
    reveal_strlit(" me ");
    reveal_strlit(" my ");
    reveal_strlit(" ¤(I have)");
    reveal_strlit(" ¤(i am) ");
    reveal_strlit(" ¤(i have)");
    reveal_strlit(" ¤(me) ");
    reveal_strlit(" ¤(my) ");
    reveal_strlit(". I am ");
    reveal_strlit(". I have");
    reveal_strlit(". My ");
    reveal_strlit(". ¤(I am) ");
    reveal_strlit(". ¤(My) ");
    assert(crate::text::witnessed(seq![' ', 'M', 'e', '.'], ". I am "@, seq![], 0)) by { reveal_with_fuel(crate::text::witnessed, 2); }
    crate::text::lemma_witnessed_none(seq![' ', 'M', 'e', '.'], ". I am "@, seq![], 0);
    crate::text::lemma_replace_none(seq![' ', 'M', 'e', '.'], ". I am "@, ". ¤(I am) "@);
    assert(crate::text::witnessed(seq![' ', 'M', 'e', '.'], " I am "@, seq![], 0)) by { reveal_with_fuel(crate::text::witnessed, 2); }
    crate::text::lemma_witnessed_none(seq![' ', 'M', 'e', '.'], " I am "@, seq![], 0);
    crate::text::lemma_replace_none(seq![' ', 'M', 'e', '.'], " I am "@, " ¤(i am) "@);
    assert(crate::text::witnessed(seq![' ', 'M', 'e', '.'], " I have"@, seq![], 0)) by { reveal_with_fuel(crate::text::witnessed, 2); }
    crate::text::lemma_witnessed_none(seq![' ', 'M', 'e', '.'], " I have"@, seq![], 0);
    crate::text::lemma_replace_none(seq![' ', 'M', 'e', '.'], " I have"@, " ¤(i have)"@);
    assert(crate::text::witnessed(seq![' ', 'M', 'e', '.'], ". I have"@, seq![], 0)) by { reveal_with_fuel(crate::text::witnessed, 2); }
    crate::text::lemma_witnessed_none(seq![' ', 'M', 'e', '.'], ". I have"@, seq![], 0);
    crate::text::lemma_replace_none(seq![' ', 'M', 'e', '.'], ". I have"@, " ¤(I have)"@);
    assert(crate::text::witnessed(seq![' ', 'M', 'e', '.'], " my "@, seq![1], 0)) by { reveal_with_fuel(crate::text::witnessed, 3); }
    crate::text::lemma_witnessed_none(seq![' ', 'M', 'e', '.'], " my "@, seq![1], 0);
    crate::text::lemma_replace_none(seq![' ', 'M', 'e', '.'], " my "@, " ¤(my) "@);
    assert(crate::text::witnessed(seq![' ', 'M', 'e', '.'], ". My "@, seq![], 0)) by { reveal_with_fuel(crate::text::witnessed, 2); }
    crate::text::lemma_witnessed_none(seq![' ', 'M', 'e', '.'], ". My "@, seq![], 0);
    crate::text::lemma_replace_none(seq![' ', 'M', 'e', '.'], ". My "@, ". ¤(My) "@);
    assert(crate::text::witnessed(seq![' ', 'M', 'e', '.'], " me "@, seq![1], 0)) by { reveal_with_fuel(crate::text::witnessed, 3); }
    crate::text::lemma_witnessed_none(seq![' ', 'M', 'e', '.'], " me "@, seq![1], 0);
    crate::text::lemma_replace_none(seq![' ', 'M', 'e', '.'], " me "@, " ¤(me) "@);
}

/// What group 3 makes of the middle of phrase 25.
proof fn lemma_phrase_25_group_3()
    ensures
        phrase_group_3(seq![' ', 'M', 'e', '.']) == seq![' ', '\u{a4}', '(', 'M', 'e', ')', '.'],
{
    reveal(phrase_group_3);
    reveal_strlit(" Me ");
    reveal_strlit(" Me,");
    reveal_strlit(" Me.");
    reveal_strlit(" me,");
    reveal_strlit(" me.");
    reveal_strlit(" ¤(Me) ");
    reveal_strlit(" ¤(Me),");
    reveal_strlit(" ¤(Me).");
    reveal_strlit(" ¤(me),");
    reveal_strlit(" ¤(me).");
    reveal_strlit(". I ");
    reveal_strlit(". ¤(I) ");
    reveal_strlit("\nI ");
    reveal_strlit("\n¤(I) ");
    assert(crate::text::witnessed(seq![' ', 'M', 'e', '.'], " me,"@, seq![1], 0)) by { reveal_with_fuel(crate::text::witnessed, 3); }
    crate::text::lemma_witnessed_none(seq![' ', 'M', 'e', '.'], " me,"@, seq![1], 0);
    crate::text::lemma_replace_none(seq![' ', 'M', 'e', '.'], " me,"@, " ¤(me),"@);
    assert(crate::text::witnessed(seq![' ', 'M', 'e', '.'], " me."@, seq![1], 0)) by { reveal_with_fuel(crate::text::witnessed, 3); }
    crate::text::lemma_witnessed_none(seq![' ', 'M', 'e', '.'], " me."@, seq![1], 0);
    crate::text::lemma_replace_none(seq![' ', 'M', 'e', '.'], " me."@, " ¤(me)."@);
    assert(crate::text::witnessed(seq![' ', 'M', 'e', '.'], " Me "@, seq![3], 0)) by { reveal_with_fuel(crate::text::witnessed, 3); }
    crate::text::lemma_witnessed_none(seq![' ', 'M', 'e', '.'], " Me "@, seq![3], 0);
    crate::text::lemma_replace_none(seq![' ', 'M', 'e', '.'], " Me "@, " ¤(Me) "@);
    assert(crate::text::witnessed(seq![' ', 'M', 'e', '.'], " Me,"@, seq![3], 0)) by { reveal_with_fuel(crate::text::witnessed, 3); }
    crate::text::lemma_witnessed_none(seq![' ', 'M', 'e', '.'], " Me,"@, seq![3], 0);
    crate::text::lemma_replace_none(seq![' ', 'M', 'e', '.'], " Me,"@, " ¤(Me),"@);
    assert(crate::text::witnessed_until(seq![' ', 'M', 'e', '.'], " Me."@, seq![], 0, 0)) by { reveal_with_fuel(crate::text::witnessed_until, 2); }
    assert(crate::text::witnessed(seq![' ', 'M', 'e', '.'], " Me."@, seq![0, 0, 0, 0], 4)) by { reveal_with_fuel(crate::text::witnessed, 6); }
    assert(seq![' ', 'M', 'e', '.'].subrange(0, 4) =~= " Me."@);
    crate::text::lemma_replace_once(seq![' ', 'M', 'e', '.'], " Me."@, " ¤(Me)."@, 0, seq![], seq![0, 0, 0, 0]);
    assert(seq![' ', 'M', 'e', '.'].subrange(0, 0) + " ¤(Me)."@ + seq![' ', 'M', 'e', '.'].subrange(4, 4) =~= seq![' ', '\u{a4}', '(', 'M', 'e', ')', '.']);
    assert(crate::text::witnessed(seq![' ', '\u{a4}', '(', 'M', 'e', ')', '.'], "\nI "@, seq![0, 0, 0, 0, 0], 0)) by { reveal_with_fuel(crate::text::witnessed, 7); }
    crate::text::lemma_witnessed_none(seq![' ', '\u{a4}', '(', 'M', 'e', ')', '.'], "\nI "@, seq![0, 0, 0, 0, 0], 0);
    crate::text::lemma_replace_none(seq![' ', '\u{a4}', '(', 'M', 'e', ')', '.'], "\nI "@, "\n¤(I) "@);
    assert(crate::text::witnessed(seq![' ', '\u{a4}', '(', 'M', 'e', ')', '.'], ". I "@, seq![0, 0, 0, 0], 0)) by { reveal_with_fuel(crate::text::witnessed, 6); }
    crate::text::lemma_witnessed_none(seq![' ', '\u{a4}', '(', 'M', 'e', ')', '.'], ". I "@, seq![0, 0, 0, 0], 0);
    crate::text::lemma_replace_none(seq![' ', '\u{a4}', '(', 'M', 'e', ')', '.'], ". I "@, ". ¤(I) "@);
}

/// What group 4 makes of the middle of phrase 25.
proof fn lemma_phrase_25_group_4()
    ensures
        phrase_group_4(seq![' ', '\u{a4}', '(', 'M', 'e', ')', '.']) == seq![' ', '\u{a4}', '(', 'M', 'e', ')', '.'],
{
    reveal(phrase_group_4);
    reveal_strlit(" I ");
    reveal_strlit(" I,");
    reveal_strlit(" I.");
    reveal_strlit(" ¤(i) ");
    reveal_strlit(" ¤(i),");
    reveal_strlit(" ¤(i).");
    reveal_strlit(". I,");
    reveal_strlit(". I.");
    reveal_strlit(". ¤(I),");
    reveal_strlit(". ¤(I). ");
    reveal_strlit("Cards ¤(I am) attached to");
    reveal_strlit("The card ¤(I am) attached to");
    reveal_strlit("cards ¤(I am) attached to");
    reveal_strlit("the card ¤(I am) attached to");
    assert(crate::text::witnessed(seq![' ', '\u{a4}', '(', 'M', 'e', ')', '.'], ". I,"@, seq![0, 0, 0, 0], 0)) by { reveal_with_fuel(crate::text::witnessed, 6); }
    crate::text::lemma_witnessed_none(seq![' ', '\u{a4}', '(', 'M', 'e', ')', '.'], ". I,"@, seq![0, 0, 0, 0], 0);
    crate::text::lemma_replace_none(seq![' ', '\u{a4}', '(', 'M', 'e', ')', '.'], ". I,"@, ". ¤(I),"@);
    assert(crate::text::witnessed(seq![' ', '\u{a4}', '(', 'M', 'e', ')', '.'], ". I."@, seq![0, 0, 0, 0], 0)) by { reveal_with_fuel(crate::text::witnessed, 6); }
    crate::text::lemma_witnessed_none(seq![' ', '\u{a4}', '(', 'M', 'e', ')', '.'], ". I."@, seq![0, 0, 0, 0], 0);
    crate::text::lemma_replace_none(seq![' ', '\u{a4}', '(', 'M', 'e', ')', '.'], ". I."@, ". ¤(I). "@);
    assert(crate::text::witnessed(seq![' ', '\u{a4}', '(', 'M', 'e', ')', '.'], " I "@, seq![1, 0, 0, 0, 0], 0)) by { reveal_with_fuel(crate::text::witnessed, 7); }
    crate::text::lemma_witnessed_none(seq![' ', '\u{a4}', '(', 'M', 'e', ')', '.'], " I "@, seq![1, 0, 0, 0, 0], 0);
    crate::text::lemma_replace_none(seq![' ', '\u{a4}', '(', 'M', 'e', ')', '.'], " I "@, " ¤(i) "@);
    assert(crate::text::witnessed(seq![' ', '\u{a4}', '(', 'M', 'e', ')', '.'], " I,"@, seq![1, 0, 0, 0, 0], 0)) by { reveal_with_fuel(crate::text::witnessed, 7); }
    crate::text::lemma_witnessed_none(seq![' ', '\u{a4}', '(', 'M', 'e', ')', '.'], " I,"@, seq![1, 0, 0, 0, 0], 0);
    crate::text::lemma_replace_none(seq![' ', '\u{a4}', '(', 'M', 'e', ')', '.'], " I,"@, " ¤(i),"@);
    assert(crate::text::witnessed(seq![' ', '\u{a4}', '(', 'M', 'e', ')', '.'], " I."@, seq![1, 0, 0, 0, 0], 0)) by { reveal_with_fuel(crate::text::witnessed, 7); }
    crate::text::lemma_witnessed_none(seq![' ', '\u{a4}', '(', 'M', 'e', ')', '.'], " I."@, seq![1, 0, 0, 0, 0], 0);
    crate::text::lemma_replace_none(seq![' ', '\u{a4}', '(', 'M', 'e', ')', '.'], " I."@, " ¤(i)."@);
    assert(crate::text::witnessed(seq![' ', '\u{a4}', '(', 'M', 'e', ')', '.'], "Cards ¤(I am) attached to"@, seq![], 0)) by { reveal_with_fuel(crate::text::witnessed, 2); }
    crate::text::lemma_witnessed_none(seq![' ', '\u{a4}', '(', 'M', 'e', ')', '.'], "Cards ¤(I am) attached to"@, seq![], 0);
    crate::text::lemma_replace_none(seq![' ', '\u{a4}', '(', 'M', 'e', ')', '.'], "Cards ¤(I am) attached to"@, "The card ¤(I am) attached to"@);
    assert(crate::text::witnessed(seq![' ', '\u{a4}', '(', 'M', 'e', ')', '.'], "cards ¤(I am) attached to"@, seq![], 0)) by { reveal_with_fuel(crate::text::witnessed, 2); }
    crate::text::lemma_witnessed_none(seq![' ', '\u{a4}', '(', 'M', 'e', ')', '.'], "cards ¤(I am) attached to"@, seq![], 0);
    crate::text::lemma_replace_none(seq![' ', '\u{a4}', '(', 'M', 'e', ')', '.'], "cards ¤(I am) attached to"@, "the card ¤(I am) attached to"@);
}

/// Between digits, phrase 25 becomes what the card text makes of it.
proof fn lemma_phrase_25(x: Seq<char>, y: Seq<char>)
    requires
        all_digits(x),
        all_digits(y),
        trim(x + " Me."@ + y) == x + " Me."@ + y,
    ensures
        phrase_commands(x + " Me."@ + y) == Some(x + seq![' ', '\u{a4}', '(', 'M', 'e', ')', '.'] + y),
{
    reveal_strlit(" Me.");
    assert(" Me."@ =~= seq![' ', 'M', 'e', '.']);
    reveal_strlit("Card with");
    reveal_strlit("card with");
    reveal_strlit("Cards with");
    reveal_strlit("cards with");
    let m0 = seq![' ', 'M', 'e', '.'];
    lemma_group_framed_0(x, m0, y);
    lemma_phrase_25_group_0();
    let m1 = phrase_group_0(m0);
    lemma_group_framed_1(x, m1, y);
    lemma_phrase_25_group_1();
    let m2 = phrase_group_1(m1);
    lemma_group_framed_2(x, m2, y);
    lemma_phrase_25_group_2();
    let m3 = phrase_group_2(m2);
    lemma_group_framed_3(x, m3, y);
    lemma_phrase_25_group_3();
    let m4 = phrase_group_3(m3);
    lemma_group_framed_4(x, m4, y);
    lemma_phrase_25_group_4();
    let m5 = phrase_group_4(m4);
    assert(crate::text::witnessed(seq![' ', '\u{a4}', '(', 'M', 'e', ')', '.'], "Card with"@, seq![], 0)) by { reveal_with_fuel(crate::text::witnessed, 2); }
    crate::text::lemma_witnessed_none(seq![' ', '\u{a4}', '(', 'M', 'e', ')', '.'], "Card with"@, seq![], 0);
    assert(digit_free("Card with"@));
    crate::text::lemma_replace_framed(x, seq![' ', '\u{a4}', '(', 'M', 'e', ')', '.'], y, "Card with"@, "Card with"@);
    assert(with_marker(WithPhrase::Card) == "Card with"@);
    assert(crate::text::witnessed(seq![' ', '\u{a4}', '(', 'M', 'e', ')', '.'], "card with"@, seq![], 0)) by { reveal_with_fuel(crate::text::witnessed, 2); }
    crate::text::lemma_witnessed_none(seq![' ', '\u{a4}', '(', 'M', 'e', ')', '.'], "card with"@, seq![], 0);
    assert(digit_free("card with"@));
    crate::text::lemma_replace_framed(x, seq![' ', '\u{a4}', '(', 'M', 'e', ')', '.'], y, "card with"@, "card with"@);
    assert(with_marker(WithPhrase::CardLower) == "card with"@);
    assert(crate::text::witnessed(seq![' ', '\u{a4}', '(', 'M', 'e', ')', '.'], "Cards with"@, seq![], 0)) by { reveal_with_fuel(crate::text::witnessed, 2); }
    crate::text::lemma_witnessed_none(seq![' ', '\u{a4}', '(', 'M', 'e', ')', '.'], "Cards with"@, seq![], 0);
    assert(digit_free("Cards with"@));
    crate::text::lemma_replace_framed(x, seq![' ', '\u{a4}', '(', 'M', 'e', ')', '.'], y, "Cards with"@, "Cards with"@);
    assert(with_marker(WithPhrase::Cards) == "Cards with"@);
    assert(crate::text::witnessed(seq![' ', '\u{a4}', '(', 'M', 'e', ')', '.'], "cards with"@, seq![], 0)) by { reveal_with_fuel(crate::text::witnessed, 2); }
    crate::text::lemma_witnessed_none(seq![' ', '\u{a4}', '(', 'M', 'e', ')', '.'], "cards with"@, seq![], 0);
    assert(digit_free("cards with"@));
    crate::text::lemma_replace_framed(x, seq![' ', '\u{a4}', '(', 'M', 'e', ')', '.'], y, "cards with"@, "cards with"@);
    assert(with_marker(WithPhrase::CardsLower) == "cards with"@);
}

/// What group 0 makes of the middle of phrase 26.
proof fn lemma_phrase_26_group_0()
    ensures
        phrase_group_0(seq!['\n', 'I', ' ']) == seq!['\n', 'I', ' '],
{
    reveal(phrase_group_0);
    reveal_strlit(" ");
    reveal_strlit("  ");
    reveal_strlit(" mana ");
    reveal_strlit(" ¤(mana) ");
    reveal_strlit("Boost");
    reveal_strlit("Experience");
    reveal_strlit("\n ");
    reveal_strlit("boost");
    reveal_strlit("experience");
    reveal_strlit("¤(Boost)");
    reveal_strlit("¤(Xp)");
    reveal_strlit("¤(boost)");
    reveal_strlit("¤(xp)");
    assert(crate::text::witnessed(seq!['\n', 'I', ' '], "\n "@, seq![1, 0], 0)) by { reveal_with_fuel(crate::text::witnessed, 4); }
    crate::text::lemma_witnessed_none(seq!['\n', 'I', ' '], "\n "@, seq![1, 0], 0);
    crate::text::lemma_replace_none(seq!['\n', 'I', ' '], "\n "@, " "@);
    assert(crate::text::witnessed(seq!['\n', 'I', ' '], "  "@, seq![0, 0], 0)) by { reveal_with_fuel(crate::text::witnessed, 4); }
    crate::text::lemma_witnessed_none(seq!['\n', 'I', ' '], "  "@, seq![0, 0], 0);
    crate::text::lemma_replace_none(seq!['\n', 'I', ' '], "  "@, " "@);
    assert(crate::text::witnessed(seq!['\n', 'I', ' '], "Boost"@, seq![], 0)) by { reveal_with_fuel(crate::text::witnessed, 2); }
    crate::text::lemma_witnessed_none(seq!['\n', 'I', ' '], "Boost"@, seq![], 0);
    crate::text::lemma_replace_none(seq!['\n', 'I', ' '], "Boost"@, "¤(Boost)"@);
    assert(crate::text::witnessed(seq!['\n', 'I', ' '], "boost"@, seq![], 0)) by { reveal_with_fuel(crate::text::witnessed, 2); }
    crate::text::lemma_witnessed_none(seq!['\n', 'I', ' '], "boost"@, seq![], 0);
    crate::text::lemma_replace_none(seq!['\n', 'I', ' '], "boost"@, "¤(boost)"@);
    assert(crate::text::witnessed(seq!['\n', 'I', ' '], "experience"@, seq![], 0)) by { reveal_with_fuel(crate::text::witnessed, 2); }
    crate::text::lemma_witnessed_none(seq!['\n', 'I', ' '], "experience"@, seq![], 0);
    crate::text::lemma_replace_none(seq!['\n', 'I', ' '], "experience"@, "¤(xp)"@);
    assert(crate::text::witnessed(seq!['\n', 'I', ' '], "Experience"@, seq![], 0)) by { reveal_with_fuel(crate::text::witnessed, 2); }
    crate::text::lemma_witnessed_none(seq!['\n', 'I', ' '], "Experience"@, seq![], 0);
    crate::text::lemma_replace_none(seq!['\n', 'I', ' '], "Experience"@, "¤(Xp)"@);
    assert(crate::text::witnessed(seq!['\n', 'I', ' '], " mana "@, seq![], 0)) by { reveal_with_fuel(crate::text::witnessed, 2); }
    crate::text::lemma_witnessed_none(seq!['\n', 'I', ' '], " mana "@, seq![], 0);
    crate::text::lemma_replace_none(seq!['\n', 'I', ' '], " mana "@, " ¤(mana) "@);
}

/// What group 1 makes of the middle of phrase 26.
proof fn lemma_phrase_26_group_1()
    ensures
        phrase_group_1(seq!['\n', 'I', ' ']) == seq!['\n', 'I', ' '],
{
    reveal(phrase_group_1);
    reveal_strlit(" Mana ");
    reveal_strlit(" Mana,");
    reveal_strlit(" Mana.");
    reveal_strlit(" mana,");
    reveal_strlit(" mana.");
    reveal_strlit(" ¤(Mana) ");
    reveal_strlit(" ¤(Mana),");
    reveal_strlit(" ¤(Mana).");
    reveal_strlit(" ¤(mana),");
    reveal_strlit(" ¤(mana).");
    reveal_strlit("I am");
    reveal_strlit("I'm");
    reveal_strlit("I’m");
    assert(crate::text::witnessed(seq!['\n', 'I', ' '], " mana."@, seq![], 0)) by { reveal_with_fuel(crate::text::witnessed, 2); }
    crate::text::lemma_witnessed_none(seq!['\n', 'I', ' '], " mana."@, seq![], 0);
    crate::text::lemma_replace_none(seq!['\n', 'I', ' '], " mana."@, " ¤(mana)."@);
    assert(crate::text::witnessed(seq!['\n', 'I', ' '], " mana,"@, seq![], 0)) by { reveal_with_fuel(crate::text::witnessed, 2); }
    crate::text::lemma_witnessed_none(seq!['\n', 'I', ' '], " mana,"@, seq![], 0);
    crate::text::lemma_replace_none(seq!['\n', 'I', ' '], " mana,"@, " ¤(mana),"@);
    assert(crate::text::witnessed(seq!['\n', 'I', ' '], " Mana "@, seq![], 0)) by { reveal_with_fuel(crate::text::witnessed, 2); }
    crate::text::lemma_witnessed_none(seq!['\n', 'I', ' '], " Mana "@, seq![], 0);
    crate::text::lemma_replace_none(seq!['\n', 'I', ' '], " Mana "@, " ¤(Mana) "@);
    assert(crate::text::witnessed(seq!['\n', 'I', ' '], " Mana."@, seq![], 0)) by { reveal_with_fuel(crate::text::witnessed, 2); }
    crate::text::lemma_witnessed_none(seq!['\n', 'I', ' '], " Mana."@, seq![], 0);
    crate::text::lemma_replace_none(seq!['\n', 'I', ' '], " Mana."@, " ¤(Mana)."@);
    assert(crate::text::witnessed(seq!['\n', 'I', ' '], " Mana,"@, seq![], 0)) by { reveal_with_fuel(crate::text::witnessed, 2); }
    crate::text::lemma_witnessed_none(seq!['\n', 'I', ' '], " Mana,"@, seq![], 0);
    crate::text::lemma_replace_none(seq!['\n', 'I', ' '], " Mana,"@, " ¤(Mana),"@);
    assert(crate::text::witnessed(seq!['\n', 'I', ' '], "I’m"@, seq![0], 0)) by { reveal_with_fuel(crate::text::witnessed, 3); }
    crate::text::lemma_witnessed_none(seq!['\n', 'I', ' '], "I’m"@, seq![0], 0);
    crate::text::lemma_replace_none(seq!['\n', 'I', ' '], "I’m"@, "I am"@);
    assert(crate::text::witnessed(seq!['\n', 'I', ' '], "I'm"@, seq![0], 0)) by { reveal_with_fuel(crate::text::witnessed, 3); }
    crate::text::lemma_witnessed_none(seq!['\n', 'I', ' '], "I'm"@, seq![0], 0);
    crate::text::lemma_replace_none(seq!['\n', 'I', ' '], "I'm"@, "I am"@);
}

/// What group 2 makes of the middle of phrase 26.
proof fn lemma_phrase_26_group_2()
    ensures
        phrase_group_2(seq!['\n', 'I', ' ']) == seq!['\n', 'I', ' '],
{
    reveal(phrase_group_2);
    reveal_strlit(" I am ");
    reveal_strlit(" I have");
    reveal_strlit(" me ");
    reveal_strlit(" my ");
    reveal_strlit(" ¤(I have)");
    reveal_strlit(" ¤(i am) ");
    reveal_strlit(" ¤(i have)");
    reveal_strlit(" ¤(me) ");
    reveal_strlit(" ¤(my) ");
    reveal_strlit(". I am ");
    reveal_strlit(". I have");
    reveal_strlit(". My ");
    reveal_strlit(". ¤(I am) ");
    reveal_strlit(". ¤(My) ");
    assert(crate::text::witnessed(seq!['\n', 'I', ' '], ". I am "@, seq![], 0)) by { reveal_with_fuel(crate::text::witnessed, 2); }
    crate::text::lemma_witnessed_none(seq!['\n', 'I', ' '], ". I am "@, seq![], 0);
    crate::text::lemma_replace_none(seq!['\n', 'I', ' '], ". I am "@, ". ¤(I am) "@);
    assert(crate::text::witnessed(seq!['\n', 'I', ' '], " I am "@, seq![], 0)) by { reveal_with_fuel(crate::text::witnessed, 2); }
    crate::text::lemma_witnessed_none(seq!['\n', 'I', ' '], " I am "@, seq![], 0);
    crate::text::lemma_replace_none(seq!['\n', 'I', ' '], " I am "@, " ¤(i am) "@);
    assert(crate::text::witnessed(seq!['\n', 'I', ' '], " I have"@, seq![], 0)) by { reveal_with_fuel(crate::text::witnessed, 2); }
    crate::text::lemma_witnessed_none(seq!['\n', 'I', ' '], " I have"@, seq![], 0);
    crate::text::lemma_replace_none(seq!['\n', 'I', ' '], " I have"@, " ¤(i have)"@);
    assert(crate::text::witnessed(seq!['\n', 'I', ' '], ". I have"@, seq![], 0)) by { reveal_with_fuel(crate::text::witnessed, 2); }
    crate::text::lemma_witnessed_none(seq!['\n', 'I', ' '], ". I have"@, seq![], 0);
    crate::text::lemma_replace_none(seq!['\n', 'I', ' '], ". I have"@, " ¤(I have)"@);
    assert(crate::text::witnessed(seq!['\n', 'I', ' '], " my "@, seq![], 0)) by { reveal_with_fuel(crate::text::witnessed, 2); }
    crate::text::lemma_witnessed_none(seq!['\n', 'I', ' '], " my "@, seq![], 0);
    crate::text::lemma_replace_none(seq!['\n', 'I', ' '], " my "@, " ¤(my) "@);
    assert(crate::text::witnessed(seq!['\n', 'I', ' '], ". My "@, seq![], 0)) by { reveal_with_fuel(crate::text::witnessed, 2); }
    crate::text::lemma_witnessed_none(seq!['\n', 'I', ' '], ". My "@, seq![], 0);
    crate::text::lemma_replace_none(seq!['\n', 'I', ' '], ". My "@, ". ¤(My) "@);
    assert(crate::text::witnessed(seq!['\n', 'I', ' '], " me "@, seq![], 0)) by { reveal_with_fuel(crate::text::witnessed, 2); }
    crate::text::lemma_witnessed_none(seq!['\n', 'I', ' '], " me "@, seq![], 0);
    crate::text::lemma_replace_none(seq!['\n', 'I', ' '], " me "@, " ¤(me) "@);
}

/// What group 3 makes of the middle of phrase 26.
proof fn lemma_phrase_26_group_3()
    ensures
        phrase_group_3(seq!['\n', 'I', ' ']) == seq!['\n', '\u{a4}', '(', 'I', ')', ' '],
{
    reveal(phrase_group_3);
    reveal_strlit(" Me ");
    reveal_strlit(" Me,");
    reveal_strlit(" Me.");
    reveal_strlit(" me,");
    reveal_strlit(" me.");
    reveal_strlit(" ¤(Me) ");
    reveal_strlit(" ¤(Me),");
    reveal_strlit(" ¤(Me).");
    reveal_strlit(" ¤(me),");
    reveal_strlit(" ¤(me).");
    reveal_strlit(". I ");
    reveal_strlit(". ¤(I) ");
    reveal_strlit("\nI ");
    reveal_strlit("\n¤(I) ");
    assert(crate::text::witnessed(seq!['\n', 'I', ' '], " me,"@, seq![], 0)) by { reveal_with_fuel(crate::text::witnessed, 2); }
    crate::text::lemma_witnessed_none(seq!['\n', 'I', ' '], " me,"@, seq![], 0);
    crate::text::lemma_replace_none(seq!['\n', 'I', ' '], " me,"@, " ¤(me),"@);
    assert(crate::text::witnessed(seq!['\n', 'I', ' '], " me."@, seq![], 0)) by { reveal_with_fuel(crate::text::witnessed, 2); }
    crate::text::lemma_witnessed_none(seq!['\n', 'I', ' '], " me."@, seq![], 0);
    crate::text::lemma_replace_none(seq!['\n', 'I', ' '], " me."@, " ¤(me)."@);
    assert(crate::text::witnessed(seq!['\n', 'I', ' '], " Me "@, seq![], 0)) by { reveal_with_fuel(crate::text::witnessed, 2); }
    crate::text::lemma_witnessed_none(seq!['\n', 'I', ' '], " Me "@, seq![], 0);
    crate::text::lemma_replace_none(seq!['\n', 'I', ' '], " Me "@, " ¤(Me) "@);
    assert(crate::text::witnessed(seq!['\n', 'I', ' '], " Me,"@, seq![], 0)) by { reveal_with_fuel(crate::text::witnessed, 2); }
    crate::text::lemma_witnessed_none(seq!['\n', 'I', ' '], " Me,"@, seq![], 0);
    crate::text::lemma_replace_none(seq!['\n', 'I', ' '], " Me,"@, " ¤(Me),"@);
    assert(crate::text::witnessed(seq!['\n', 'I', ' '], " Me."@, seq![], 0)) by { reveal_with_fuel(crate::text::witnessed, 2); }
    crate::text::lemma_witnessed_none(seq!['\n', 'I', ' '], " Me."@, seq![], 0);
    crate::text::lemma_replace_none(seq!['\n', 'I', ' '], " Me."@, " ¤(Me)."@);
    assert(crate::text::witnessed_until(seq!['\n', 'I', ' '], "\nI "@, seq![], 0, 0)) by { reveal_with_fuel(crate::text::witnessed_until, 2); }
    assert(crate::text::witnessed(seq!['\n', 'I', ' '], "\nI "@, seq![0, 0, 0], 3)) by { reveal_with_fuel(crate::text::witnessed, 5); }
    assert(seq!['\n', 'I', ' '].subrange(0, 3) =~= "\nI "@);
    crate::text::lemma_replace_once(seq!['\n', 'I', ' '], "\nI "@, "\n¤(I) "@, 0, seq![], seq![0, 0, 0]);
    assert(seq!['\n', 'I', ' '].subrange(0, 0) + "\n¤(I) "@ + seq!['\n', 'I', ' '].subrange(3, 3) =~= seq!['\n', '\u{a4}', '(', 'I', ')', ' ']);
    assert(crate::text::witnessed(seq!['\n', '\u{a4}', '(', 'I', ')', ' '], ". I "@, seq![0, 0, 0], 0)) by { reveal_with_fuel(crate::text::witnessed, 5); }
    crate::text::lemma_witnessed_none(seq!['\n', '\u{a4}', '(', 'I', ')', ' '], ". I "@, seq![0, 0, 0], 0);
    crate::text::lemma_replace_none(seq!['\n', '\u{a4}', '(', 'I', ')', ' '], ". I "@, ". ¤(I) "@);
}

/// What group 4 makes of the middle of phrase 26.
proof fn lemma_phrase_26_group_4()
    ensures
        phrase_group_4(seq!['\n', '\u{a4}', '(', 'I', ')', ' ']) == seq!['\n', '\u{a4}', '(', 'I', ')', ' '],
{
    reveal(phrase_group_4);
    reveal_strlit(" I ");
    reveal_strlit(" I,");
    reveal_strlit(" I.");
    reveal_strlit(" ¤(i) ");
    reveal_strlit(" ¤(i),");
    reveal_strlit(" ¤(i).");
    reveal_strlit(". I,");
    reveal_strlit(". I.");
    reveal_strlit(". ¤(I),");
    reveal_strlit(". ¤(I). ");
    reveal_strlit("Cards ¤(I am) attached to");
    reveal_strlit("The card ¤(I am) attached to");
    reveal_strlit("cards ¤(I am) attached to");
    reveal_strlit("the card ¤(I am) attached to");
    assert(crate::text::witnessed(seq!['\n', '\u{a4}', '(', 'I', ')', ' '], ". I,"@, seq![0, 0, 0], 0)) by { reveal_with_fuel(crate::text::witnessed, 5); }
    crate::text::lemma_witnessed_none(seq!['\n', '\u{a4}', '(', 'I', ')', ' '], ". I,"@, seq![0, 0, 0], 0);
    crate::text::lemma_replace_none(seq!['\n', '\u{a4}', '(', 'I', ')', ' '], ". I,"@, ". ¤(I),"@);
    assert(crate::text::witnessed(seq!['\n', '\u{a4}', '(', 'I', ')', ' '], ". I."@, seq![0, 0, 0], 0)) by { reveal_with_fuel(crate::text::witnessed, 5); }
    crate::text::lemma_witnessed_none(seq!['\n', '\u{a4}', '(', 'I', ')', ' '], ". I."@, seq![0, 0, 0], 0);
    crate::text::lemma_replace_none(seq!['\n', '\u{a4}', '(', 'I', ')', ' '], ". I."@, ". ¤(I). "@);
    assert(crate::text::witnessed(seq!['\n', '\u{a4}', '(', 'I', ')', ' '], " I "@, seq![0, 0, 0, 0], 0)) by { reveal_with_fuel(crate::text::witnessed, 6); }
    crate::text::lemma_witnessed_none(seq!['\n', '\u{a4}', '(', 'I', ')', ' '], " I "@, seq![0, 0, 0, 0], 0);
    crate::text::lemma_replace_none(seq!['\n', '\u{a4}', '(', 'I', ')', ' '], " I "@, " ¤(i) "@);
    assert(crate::text::witnessed(seq!['\n', '\u{a4}', '(', 'I', ')', ' '], " I,"@, seq![0, 0, 0, 0], 0)) by { reveal_with_fuel(crate::text::witnessed, 6); }
    crate::text::lemma_witnessed_none(seq!['\n', '\u{a4}', '(', 'I', ')', ' '], " I,"@, seq![0, 0, 0, 0], 0);
    crate::text::lemma_replace_none(seq!['\n', '\u{a4}', '(', 'I', ')', ' '], " I,"@, " ¤(i),"@);
    assert(crate::text::witnessed(seq!['\n', '\u{a4}', '(', 'I', ')', ' '], " I."@, seq![0, 0, 0, 0], 0)) by { reveal_with_fuel(crate::text::witnessed, 6); }
    crate::text::lemma_witnessed_none(seq!['\n', '\u{a4}', '(', 'I', ')', ' '], " I."@, seq![0, 0, 0, 0], 0);
    crate::text::lemma_replace_none(seq!['\n', '\u{a4}', '(', 'I', ')', ' '], " I."@, " ¤(i)."@);
    assert(crate::text::witnessed(seq!['\n', '\u{a4}', '(', 'I', ')', ' '], "Cards ¤(I am) attached to"@, seq![], 0)) by { reveal_with_fuel(crate::text::witnessed, 2); }
    crate::text::lemma_witnessed_none(seq!['\n', '\u{a4}', '(', 'I', ')', ' '], "Cards ¤(I am) attached to"@, seq![], 0);
    crate::text::lemma_replace_none(seq!['\n', '\u{a4}', '(', 'I', ')', ' '], "Cards ¤(I am) attached to"@, "The card ¤(I am) attached to"@);
    assert(crate::text::witnessed(seq!['\n', '\u{a4}', '(', 'I', ')', ' '], "cards ¤(I am) attached to"@, seq![], 0)) by { reveal_with_fuel(crate::text::witnessed, 2); }
    crate::text::lemma_witnessed_none(seq!['\n', '\u{a4}', '(', 'I', ')', ' '], "cards ¤(I am) attached to"@, seq![], 0);
    crate::text::lemma_replace_none(seq!['\n', '\u{a4}', '(', 'I', ')', ' '], "cards ¤(I am) attached to"@, "the card ¤(I am) attached to"@);
}

/// Between digits, phrase 26 becomes what the card text makes of it.
proof fn lemma_phrase_26(x: Seq<char>, y: Seq<char>)
    requires
        all_digits(x),
        all_digits(y),
        trim(x + "\nI "@ + y) == x + "\nI "@ + y,
    ensures
        phrase_commands(x + "\nI "@ + y) == Some(x + seq!['\n', '\u{a4}', '(', 'I', ')', ' '] + y),
{
    reveal_strlit("\nI ");
    assert("\nI "@ =~= seq!['\n', 'I', ' ']);
    reveal_strlit("Card with");
    reveal_strlit("card with");
    reveal_strlit("Cards with");
    reveal_strlit("cards with");
    let m0 = seq!['\n', 'I', ' '];
    lemma_group_framed_0(x, m0, y);
    lemma_phrase_26_group_0();
    let m1 = phrase_group_0(m0);
    lemma_group_framed_1(x, m1, y);
    lemma_phrase_26_group_1();
    let m2 = phrase_group_1(m1);
    lemma_group_framed_2(x, m2, y);
    lemma_phrase_26_group_2();
    let m3 = phrase_group_2(m2);
    lemma_group_framed_3(x, m3, y);
    lemma_phrase_26_group_3();
    let m4 = phrase_group_3(m3);
    lemma_group_framed_4(x, m4, y);
    lemma_phrase_26_group_4();
    let m5 = phrase_group_4(m4);
    assert(crate::text::witnessed(seq!['\n', '\u{a4}', '(', 'I', ')', ' '], "Card with"@, seq![], 0)) by { reveal_with_fuel(crate::text::witnessed, 2); }
    crate::text::lemma_witnessed_none(seq!['\n', '\u{a4}', '(', 'I', ')', ' '], "Card with"@, seq![], 0);
    assert(digit_free("Card with"@));
    crate::text::lemma_replace_framed(x, seq!['\n', '\u{a4}', '(', 'I', ')', ' '], y, "Card with"@, "Card with"@);
    assert(with_marker(WithPhrase::Card) == "Card with"@);
    assert(crate::text::witnessed(seq!['\n', '\u{a4}', '(', 'I', ')', ' '], "card with"@, seq![], 0)) by { reveal_with_fuel(crate::text::witnessed, 2); }
    crate::text::lemma_witnessed_none(seq!['\n', '\u{a4}', '(', 'I', ')', ' '], "card with"@, seq![], 0);
    assert(digit_free("card with"@));
    crate::text::lemma_replace_framed(x, seq!['\n', '\u{a4}', '(', 'I', ')', ' '], y, "card with"@, "card with"@);
    assert(with_marker(WithPhrase::CardLower) == "card with"@);
    assert(crate::text::witnessed(seq!['\n', '\u{a4}', '(', 'I', ')', ' '], "Cards with"@, seq![], 0)) by { reveal_with_fuel(crate::text::witnessed, 2); }
    crate::text::lemma_witnessed_none(seq!['\n', '\u{a4}', '(', 'I', ')', ' '], "Cards with"@, seq![], 0);
    assert(digit_free("Cards with"@));
    crate::text::lemma_replace_framed(x, seq!['\n', '\u{a4}', '(', 'I', ')', ' '], y, "Cards with"@, "Cards with"@);
    assert(with_marker(WithPhrase::Cards) == "Cards with"@);
    assert(crate::text::witnessed(seq!['\n', '\u{a4}', '(', 'I', ')', ' '], "cards with"@, seq![], 0)) by { reveal_with_fuel(crate::text::witnessed, 2); }
    crate::text::lemma_witnessed_none(seq!['\n', '\u{a4}', '(', 'I', ')', ' '], "cards with"@, seq![], 0);
    assert(digit_free("cards with"@));
    crate::text::lemma_replace_framed(x, seq!['\n', '\u{a4}', '(', 'I', ')', ' '], y, "cards with"@, "cards with"@);
    assert(with_marker(WithPhrase::CardsLower) == "cards with"@);
}

/// What group 0 makes of the middle of phrase 27.
proof fn lemma_phrase_27_group_0()
    ensures
        phrase_group_0(seq!['.', ' ', 'I', ' ']) == seq!['.', ' ', 'I', ' '],
{
    reveal(phrase_group_0);
    reveal_strlit(" ");
    reveal_strlit("  ");
    reveal_strlit(" mana ");
    reveal_strlit(" ¤(mana) ");
    reveal_strlit("Boost");
    reveal_strlit("Experience");
    reveal_strlit("\n ");
    reveal_strlit("boost");
    reveal_strlit("experience");
    reveal_strlit("¤(Boost)");
    reveal_strlit("¤(Xp)");
    reveal_strlit("¤(boost)");
    reveal_strlit("¤(xp)");
    assert(crate::text::witnessed(seq!['.', ' ', 'I', ' '], "\n "@, seq![0, 0, 0], 0)) by { reveal_with_fuel(crate::text::witnessed, 5); }
    crate::text::lemma_witnessed_none(seq!['.', ' ', 'I', ' '], "\n "@, seq![0, 0, 0], 0);
    crate::text::lemma_replace_none(seq!['.', ' ', 'I', ' '], "\n "@, " "@);
    assert(crate::text::witnessed(seq!['.', ' ', 'I', ' '], "  "@, seq![0, 1, 0], 0)) by { reveal_with_fuel(crate::text::witnessed, 5); }
    crate::text::lemma_witnessed_none(seq!['.', ' ', 'I', ' '], "  "@, seq![0, 1, 0], 0);
    crate::text::lemma_replace_none(seq!['.', ' ', 'I', ' '], "  "@, " "@);
    assert(crate::text::witnessed(seq!['.', ' ', 'I', ' '], "Boost"@, seq![], 0)) by { reveal_with_fuel(crate::text::witnessed, 2); }
    crate::text::lemma_witnessed_none(seq!['.', ' ', 'I', ' '], "Boost"@, seq![], 0);
    crate::text::lemma_replace_none(seq!['.', ' ', 'I', ' '], "Boost"@, "¤(Boost)"@);
    assert(crate::text::witnessed(seq!['.', ' ', 'I', ' '], "boost"@, seq![], 0)) by { reveal_with_fuel(crate::text::witnessed, 2); }
    crate::text::lemma_witnessed_none(seq!['.', ' ', 'I', ' '], "boost"@, seq![], 0);
    crate::text::lemma_replace_none(seq!['.', ' ', 'I', ' '], "boost"@, "¤(boost)"@);
    assert(crate::text::witnessed(seq!['.', ' ', 'I', ' '], "experience"@, seq![], 0)) by { reveal_with_fuel(crate::text::witnessed, 2); }
    crate::text::lemma_witnessed_none(seq!['.', ' ', 'I', ' '], "experience"@, seq![], 0);
    crate::text::lemma_replace_none(seq!['.', ' ', 'I', ' '], "experience"@, "¤(xp)"@);
    assert(crate::text::witnessed(seq!['.', ' ', 'I', ' '], "Experience"@, seq![], 0)) by { reveal_with_fuel(crate::text::witnessed, 2); }
    crate::text::lemma_witnessed_none(seq!['.', ' ', 'I', ' '], "Experience"@, seq![], 0);
    crate::text::lemma_replace_none(seq!['.', ' ', 'I', ' '], "Experience"@, "¤(Xp)"@);
    assert(crate::text::witnessed(seq!['.', ' ', 'I', ' '], " mana "@, seq![], 0)) by { reveal_with_fuel(crate::text::witnessed, 2); }
    crate::text::lemma_witnessed_none(seq!['.', ' ', 'I', ' '], " mana "@, seq![], 0);
    crate::text::lemma_replace_none(seq!['.', ' ', 'I', ' '], " mana "@, " ¤(mana) "@);
}

/// What group 1 makes of the middle of phrase 27.
proof fn lemma_phrase_27_group_1()
    ensures
        phrase_group_1(seq!['.', ' ', 'I', ' ']) == seq!['.', ' ', 'I', ' '],
{
    reveal(phrase_group_1);
    reveal_strlit(" Mana ");
    reveal_strlit(" Mana,");
    reveal_strlit(" Mana.");
    reveal_strlit(" mana,");
    reveal_strlit(" mana.");
    reveal_strlit(" ¤(Mana) ");
    reveal_strlit(" ¤(Mana),");
    reveal_strlit(" ¤(Mana).");
    reveal_strlit(" ¤(mana),");
    reveal_strlit(" ¤(mana).");
    reveal_strlit("I am");
    reveal_strlit("I'm");
    reveal_strlit("I’m");
    assert(crate::text::witnessed(seq!['.', ' ', 'I', ' '], " mana."@, seq![], 0)) by { reveal_with_fuel(crate::text::witnessed, 2); }
    crate::text::lemma_witnessed_none(seq!['.', ' ', 'I', ' '], " mana."@, seq![], 0);
    crate::text::lemma_replace_none(seq!['.', ' ', 'I', ' '], " mana."@, " ¤(mana)."@);
    assert(crate::text::witnessed(seq!['.', ' ', 'I', ' '], " mana,"@, seq![], 0)) by { reveal_with_fuel(crate::text::witnessed, 2); }
    crate::text::lemma_witnessed_none(seq!['.', ' ', 'I', ' '], " mana,"@, seq![], 0);
    crate::text::lemma_replace_none(seq!['.', ' ', 'I', ' '], " mana,"@, " ¤(mana),"@);
    assert(crate::text::witnessed(seq!['.', ' ', 'I', ' '], " Mana "@, seq![], 0)) by { reveal_with_fuel(crate::text::witnessed, 2); }
    crate::text::lemma_witnessed_none(seq!['.', ' ', 'I', ' '], " Mana "@, seq![], 0);
    crate::text::lemma_replace_none(seq!['.', ' ', 'I', ' '], " Mana "@, " ¤(Mana) "@);
    assert(crate::text::witnessed(seq!['.', ' ', 'I', ' '], " Mana."@, seq![], 0)) by { reveal_with_fuel(crate::text::witnessed, 2); }
    crate::text::lemma_witnessed_none(seq!['.', ' ', 'I', ' '], " Mana."@, seq![], 0);
    crate::text::lemma_replace_none(seq!['.', ' ', 'I', ' '], " Mana."@, " ¤(Mana)."@);
    assert(crate::text::witnessed(seq!['.', ' ', 'I', ' '], " Mana,"@, seq![], 0)) by { reveal_with_fuel(crate::text::witnessed, 2); }
    crate::text::lemma_witnessed_none(seq!['.', ' ', 'I', ' '], " Mana,"@, seq![], 0);
    crate::text::lemma_replace_none(seq!['.', ' ', 'I', ' '], " Mana,"@, " ¤(Mana),"@);
    assert(crate::text::witnessed(seq!['.', ' ', 'I', ' '], "I’m"@, seq![0, 0], 0)) by { reveal_with_fuel(crate::text::witnessed, 4); }
    crate::text::lemma_witnessed_none(seq!['.', ' ', 'I', ' '], "I’m"@, seq![0, 0], 0);
    crate::text::lemma_replace_none(seq!['.', ' ', 'I', ' '], "I’m"@, "I am"@);
    assert(crate::text::witnessed(seq!['.', ' ', 'I', ' '], "I'm"@, seq![0, 0], 0)) by { reveal_with_fuel(crate::text::witnessed, 4); }
    crate::text::lemma_witnessed_none(seq!['.', ' ', 'I', ' '], "I'm"@, seq![0, 0], 0);
    crate::text::lemma_replace_none(seq!['.', ' ', 'I', ' '], "I'm"@, "I am"@);
}

/// What group 2 makes of the middle of phrase 27.
proof fn lemma_phrase_27_group_2()
    ensures
        phrase_group_2(seq!['.', ' ', 'I', ' ']) == seq!['.', ' ', 'I', ' '],
{
    reveal(phrase_group_2);
    reveal_strlit(" I am ");
    reveal_strlit(" I have");
    reveal_strlit(" me ");
    reveal_strlit(" my ");
    reveal_strlit(" ¤(I have)");
    reveal_strlit(" ¤(i am) ");
    reveal_strlit(" ¤(i have)");
    reveal_strlit(" ¤(me) ");
    reveal_strlit(" ¤(my) ");
    reveal_strlit(". I am ");
    reveal_strlit(". I have");
    reveal_strlit(". My ");
    reveal_strlit(". ¤(I am) ");
    reveal_strlit(". ¤(My) ");
    assert(crate::text::witnessed(seq!['.', ' ', 'I', ' '], ". I am "@, seq![], 0)) by { reveal_with_fuel(crate::text::witnessed, 2); }
    crate::text::lemma_witnessed_none(seq!['.', ' ', 'I', ' '], ". I am "@, seq![], 0);
    crate::text::lemma_replace_none(seq!['.', ' ', 'I', ' '], ". I am "@, ". ¤(I am) "@);
    assert(crate::text::witnessed(seq!['.', ' ', 'I', ' '], " I am "@, seq![], 0)) by { reveal_with_fuel(crate::text::witnessed, 2); }
    crate::text::lemma_witnessed_none(seq!['.', ' ', 'I', ' '], " I am "@, seq![], 0);
    crate::text::lemma_replace_none(seq!['.', ' ', 'I', ' '], " I am "@, " ¤(i am) "@);
    assert(crate::text::witnessed(seq!['.', ' ', 'I', ' '], " I have"@, seq![], 0)) by { reveal_with_fuel(crate::text::witnessed, 2); }
    crate::text::lemma_witnessed_none(seq!['.', ' ', 'I', ' '], " I have"@, seq![], 0);
    crate::text::lemma_replace_none(seq!['.', ' ', 'I', ' '], " I have"@, " ¤(i have)"@);
    assert(crate::text::witnessed(seq!['.', ' ', 'I', ' '], ". I have"@, seq![], 0)) by { reveal_with_fuel(crate::text::witnessed, 2); }
    crate::text::lemma_witnessed_none(seq!['.', ' ', 'I', ' '], ". I have"@, seq![], 0);
    crate::text::lemma_replace_none(seq!['.', ' ', 'I', ' '], ". I have"@, " ¤(I have)"@);
    assert(crate::text::witnessed(seq!['.', ' ', 'I', ' '], " my "@, seq![0], 0)) by { reveal_with_fuel(crate::text::witnessed, 3); }
    crate::text::lemma_witnessed_none(seq!['.', ' ', 'I', ' '], " my "@, seq![0], 0);
    crate::text::lemma_replace_none(seq!['.', ' ', 'I', ' '], " my "@, " ¤(my) "@);
    assert(crate::text::witnessed(seq!['.', ' ', 'I', ' '], ". My "@, seq![], 0)) by { reveal_with_fuel(crate::text::witnessed, 2); }
    crate::text::lemma_witnessed_none(seq!['.', ' ', 'I', ' '], ". My "@, seq![], 0);
    crate::text::lemma_replace_none(seq!['.', ' ', 'I', ' '], ". My "@, ". ¤(My) "@);
    assert(crate::text::witnessed(seq!['.', ' ', 'I', ' '], " me "@, seq![0], 0)) by { reveal_with_fuel(crate::text::witnessed, 3); }
    crate::text::lemma_witnessed_none(seq!['.', ' ', 'I', ' '], " me "@, seq![0], 0);
    crate::text::lemma_replace_none(seq!['.', ' ', 'I', ' '], " me "@, " ¤(me) "@);
}

/// What group 3 makes of the middle of phrase 27.
proof fn lemma_phrase_27_group_3()
    ensures
        phrase_group_3(seq!['.', ' ', 'I', ' ']) == seq!['.', ' ', '\u{a4}', '(', 'I', ')', ' '],
{
    reveal(phrase_group_3);
    reveal_strlit(" Me ");
    reveal_strlit(" Me,");
    reveal_strlit(" Me.");
    reveal_strlit(" me,");
    reveal_strlit(" me.");
    reveal_strlit(" ¤(Me) ");
    reveal_strlit(" ¤(Me),");
    reveal_strlit(" ¤(Me).");
    reveal_strlit(" ¤(me),");
    reveal_strlit(" ¤(me).");
    reveal_strlit(". I ");
    reveal_strlit(". ¤(I) ");
    reveal_strlit("\nI ");
    reveal_strlit("\n¤(I) ");
    assert(crate::text::witnessed(seq!['.', ' ', 'I', ' '], " me,"@, seq![0], 0)) by { reveal_with_fuel(crate::text::witnessed, 3); }
    crate::text::lemma_witnessed_none(seq!['.', ' ', 'I', ' '], " me,"@, seq![0], 0);
    crate::text::lemma_replace_none(seq!['.', ' ', 'I', ' '], " me,"@, " ¤(me),"@);
    assert(crate::text::witnessed(seq!['.', ' ', 'I', ' '], " me."@, seq![0], 0)) by { reveal_with_fuel(crate::text::witnessed, 3); }
    crate::text::lemma_witnessed_none(seq!['.', ' ', 'I', ' '], " me."@, seq![0], 0);
    crate::text::lemma_replace_none(seq!['.', ' ', 'I', ' '], " me."@, " ¤(me)."@);
    assert(crate::text::witnessed(seq!['.', ' ', 'I', ' '], " Me "@, seq![0], 0)) by { reveal_with_fuel(crate::text::witnessed, 3); }
    crate::text::lemma_witnessed_none(seq!['.', ' ', 'I', ' '], " Me "@, seq![0], 0);
    crate::text::lemma_replace_none(seq!['.', ' ', 'I', ' '], " Me "@, " ¤(Me) "@);
    assert(crate::text::witnessed(seq!['.', ' ', 'I', ' '], " Me,"@, seq![0], 0)) by { reveal_with_fuel(crate::text::witnessed, 3); }
    crate::text::lemma_witnessed_none(seq!['.', ' ', 'I', ' '], " Me,"@, seq![0], 0);
    crate::text::lemma_replace_none(seq!['.', ' ', 'I', ' '], " Me,"@, " ¤(Me),"@);
    assert(crate::text::witnessed(seq!['.', ' ', 'I', ' '], " Me."@, seq![0], 0)) by { reveal_with_fuel(crate::text::witnessed, 3); }
    crate::text::lemma_witnessed_none(seq!['.', ' ', 'I', ' '], " Me."@, seq![0], 0);
    crate::text::lemma_replace_none(seq!['.', ' ', 'I', ' '], " Me."@, " ¤(Me)."@);
    assert(crate::text::witnessed(seq!['.', ' ', 'I', ' '], "\nI "@, seq![0, 0], 0)) by { reveal_with_fuel(crate::text::witnessed, 4); }
    crate::text::lemma_witnessed_none(seq!['.', ' ', 'I', ' '], "\nI "@, seq![0, 0], 0);
    crate::text::lemma_replace_none(seq!['.', ' ', 'I', ' '], "\nI "@, "\n¤(I) "@);
    assert(crate::text::witnessed_until(seq!['.', ' ', 'I', ' '], ". I "@, seq![], 0, 0)) by { reveal_with_fuel(crate::text::witnessed_until, 2); }
    assert(crate::text::witnessed(seq!['.', ' ', 'I', ' '], ". I "@, seq![0, 0, 0, 0], 4)) by { reveal_with_fuel(crate::text::witnessed, 6); }
    assert(seq!['.', ' ', 'I', ' '].subrange(0, 4) =~= ". I "@);
    crate::text::lemma_replace_once(seq!['.', ' ', 'I', ' '], ". I "@, ". ¤(I) "@, 0, seq![], seq![0, 0, 0, 0]);
    assert(seq!['.', ' ', 'I', ' '].subrange(0, 0) + ". ¤(I) "@ + seq!['.', ' ', 'I', ' '].subrange(4, 4) =~= seq!['.', ' ', '\u{a4}', '(', 'I', ')', ' ']);
}

/// What group 4 makes of the middle of phrase 27.
proof fn lemma_phrase_27_group_4()
    ensures
        phrase_group_4(seq!['.', ' ', '\u{a4}', '(', 'I', ')', ' ']) == seq!['.', ' ', '\u{a4}', '(', 'I', ')', ' '],
{
    reveal(phrase_group_4);
    reveal_strlit(" I ");
    reveal_strlit(" I,");
    reveal_strlit(" I.");
    reveal_strlit(" ¤(i) ");
    reveal_strlit(" ¤(i),");
    reveal_strlit(" ¤(i).");
    reveal_strlit(". I,");
    reveal_strlit(". I.");
    reveal_strlit(". ¤(I),");
    reveal_strlit(". ¤(I). ");
    reveal_strlit("Cards ¤(I am) attached to");
    reveal_strlit("The card ¤(I am) attached to");
    reveal_strlit("cards ¤(I am) attached to");
    reveal_strlit("the card ¤(I am) attached to");
    assert(crate::text::witnessed(seq!['.', ' ', '\u{a4}', '(', 'I', ')', ' '], ". I,"@, seq![2, 0, 0, 0], 0)) by { reveal_with_fuel(crate::text::witnessed, 6); }
    crate::text::lemma_witnessed_none(seq!['.', ' ', '\u{a4}', '(', 'I', ')', ' '], ". I,"@, seq![2, 0, 0, 0], 0);
    crate::text::lemma_replace_none(seq!['.', ' ', '\u{a4}', '(', 'I', ')', ' '], ". I,"@, ". ¤(I),"@);
    assert(crate::text::witnessed(seq!['.', ' ', '\u{a4}', '(', 'I', ')', ' '], ". I."@, seq![2, 0, 0, 0], 0)) by { reveal_with_fuel(crate::text::witnessed, 6); }
    crate::text::lemma_witnessed_none(seq!['.', ' ', '\u{a4}', '(', 'I', ')', ' '], ". I."@, seq![2, 0, 0, 0], 0);
    crate::text::lemma_replace_none(seq!['.', ' ', '\u{a4}', '(', 'I', ')', ' '], ". I."@, ". ¤(I). "@);
    assert(crate::text::witnessed(seq!['.', ' ', '\u{a4}', '(', 'I', ')', ' '], " I "@, seq![0, 1, 0, 0, 0], 0)) by { reveal_with_fuel(crate::text::witnessed, 7); }
    crate::text::lemma_witnessed_none(seq!['.', ' ', '\u{a4}', '(', 'I', ')', ' '], " I "@, seq![0, 1, 0, 0, 0], 0);
    crate::text::lemma_replace_none(seq!['.', ' ', '\u{a4}', '(', 'I', ')', ' '], " I "@, " ¤(i) "@);
    assert(crate::text::witnessed(seq!['.', ' ', '\u{a4}', '(', 'I', ')', ' '], " I,"@, seq![0, 1, 0, 0, 0], 0)) by { reveal_with_fuel(crate::text::witnessed, 7); }
    crate::text::lemma_witnessed_none(seq!['.', ' ', '\u{a4}', '(', 'I', ')', ' '], " I,"@, seq![0, 1, 0, 0, 0], 0);
    crate::text::lemma_replace_none(seq!['.', ' ', '\u{a4}', '(', 'I', ')', ' '], " I,"@, " ¤(i),"@);
    assert(crate::text::witnessed(seq!['.', ' ', '\u{a4}', '(', 'I', ')', ' '], " I."@, seq![0, 1, 0, 0, 0], 0)) by { reveal_with_fuel(crate::text::witnessed, 7); }
    crate::text::lemma_witnessed_none(seq!['.', ' ', '\u{a4}', '(', 'I', ')', ' '], " I."@, seq![0, 1, 0, 0, 0], 0);
    crate::text::lemma_replace_none(seq!['.', ' ', '\u{a4}', '(', 'I', ')', ' '], " I."@, " ¤(i)."@);
    assert(crate::text::witnessed(seq!['.', ' ', '\u{a4}', '(', 'I', ')', ' '], "Cards ¤(I am) attached to"@, seq![], 0)) by { reveal_with_fuel(crate::text::witnessed, 2); }
    crate::text::lemma_witnessed_none(seq!['.', ' ', '\u{a4}', '(', 'I', ')', ' '], "Cards ¤(I am) attached to"@, seq![], 0);
    crate::text::lemma_replace_none(seq!['.', ' ', '\u{a4}', '(', 'I', ')', ' '], "Cards ¤(I am) attached to"@, "The card ¤(I am) attached to"@);
    assert(crate::text::witnessed(seq!['.', ' ', '\u{a4}', '(', 'I', ')', ' '], "cards ¤(I am) attached to"@, seq![], 0)) by { reveal_with_fuel(crate::text::witnessed, 2); }
    crate::text::lemma_witnessed_none(seq!['.', ' ', '\u{a4}', '(', 'I', ')', ' '], "cards ¤(I am) attached to"@, seq![], 0);
    crate::text::lemma_replace_none(seq!['.', ' ', '\u{a4}', '(', 'I', ')', ' '], "cards ¤(I am) attached to"@, "the card ¤(I am) attached to"@);
}

/// Between digits, phrase 27 becomes what the card text makes of it.
proof fn lemma_phrase_27(x: Seq<char>, y: Seq<char>)
    requires
        all_digits(x),
        all_digits(y),
        trim(x + ". I "@ + y) == x + ". I "@ + y,
    ensures
        phrase_commands(x + ". I "@ + y) == Some(x + seq!['.', ' ', '\u{a4}', '(', 'I', ')', ' '] + y),
{
    reveal_strlit(". I ");
    assert(". I "@ =~= seq!['.', ' ', 'I', ' ']);
    reveal_strlit("Card with");
    reveal_strlit("card with");
    reveal_strlit("Cards with");
    reveal_strlit("cards with");
    let m0 = seq!['.', ' ', 'I', ' '];
    lemma_group_framed_0(x, m0, y);
    lemma_phrase_27_group_0();
    let m1 = phrase_group_0(m0);
    lemma_group_framed_1(x, m1, y);
    lemma_phrase_27_group_1();
    let m2 = phrase_group_1(m1);
    lemma_group_framed_2(x, m2, y);
    lemma_phrase_27_group_2();
    let m3 = phrase_group_2(m2);
    lemma_group_framed_3(x, m3, y);
    lemma_phrase_27_group_3();
    let m4 = phrase_group_3(m3);
    lemma_group_framed_4(x, m4, y);
    lemma_phrase_27_group_4();
    let m5 = phrase_group_4(m4);
    assert(crate::text::witnessed(seq!['.', ' ', '\u{a4}', '(', 'I', ')', ' '], "Card with"@, seq![], 0)) by { reveal_with_fuel(crate::text::witnessed, 2); }
    crate::text::lemma_witnessed_none(seq!['.', ' ', '\u{a4}', '(', 'I', ')', ' '], "Card with"@, seq![], 0);
    assert(digit_free("Card with"@));
    crate::text::lemma_replace_framed(x, seq!['.', ' ', '\u{a4}', '(', 'I', ')', ' '], y, "Card with"@, "Card with"@);
    assert(with_marker(WithPhrase::Card) == "Card with"@);
    assert(crate::text::witnessed(seq!['.', ' ', '\u{a4}', '(', 'I', ')', ' '], "card with"@, seq![], 0)) by { reveal_with_fuel(crate::text::witnessed, 2); }
    crate::text::lemma_witnessed_none(seq!['.', ' ', '\u{a4}', '(', 'I', ')', ' '], "card with"@, seq![], 0);
    assert(digit_free("card with"@));
    crate::text::lemma_replace_framed(x, seq!['.', ' ', '\u{a4}', '(', 'I', ')', ' '], y, "card with"@, "card with"@);
    assert(with_marker(WithPhrase::CardLower) == "card with"@);
    assert(crate::text::witnessed(seq!['.', ' ', '\u{a4}', '(', 'I', ')', ' '], "Cards with"@, seq![], 0)) by { reveal_with_fuel(crate::text::witnessed, 2); }
    crate::text::lemma_witnessed_none(seq!['.', ' ', '\u{a4}', '(', 'I', ')', ' '], "Cards with"@, seq![], 0);
    assert(digit_free("Cards with"@));
    crate::text::lemma_replace_framed(x, seq!['.', ' ', '\u{a4}', '(', 'I', ')', ' '], y, "Cards with"@, "Cards with"@);
    assert(with_marker(WithPhrase::Cards) == "Cards with"@);
    assert(crate::text::witnessed(seq!['.', ' ', '\u{a4}', '(', 'I', ')', ' '], "cards with"@, seq![], 0)) by { reveal_with_fuel(crate::text::witnessed, 2); }
    crate::text::lemma_witnessed_none(seq!['.', ' ', '\u{a4}', '(', 'I', ')', ' '], "cards with"@, seq![], 0);
    assert(digit_free("cards with"@));
    crate::text::lemma_replace_framed(x, seq!['.', ' ', '\u{a4}', '(', 'I', ')', ' '], y, "cards with"@, "cards with"@);
    assert(with_marker(WithPhrase::CardsLower) == "cards with"@);
}

/// What group 0 makes of the middle of phrase 28.
proof fn lemma_phrase_28_group_0()
    ensures
        phrase_group_0(seq!['.', ' ', 'I', ',']) == seq!['.', ' ', 'I', ','],
{
    reveal(phrase_group_0);
    reveal_strlit(" ");
    reveal_strlit("  ");
    reveal_strlit(" mana ");
    reveal_strlit(" ¤(mana) ");
    reveal_strlit("Boost");
    reveal_strlit("Experience");
    reveal_strlit("\n ");
    reveal_strlit("boost");
    reveal_strlit("experience");
    reveal_strlit("¤(Boost)");
    reveal_strlit("¤(Xp)");
    reveal_strlit("¤(boost)");
    reveal_strlit("¤(xp)");
    assert(crate::text::witnessed(seq!['.', ' ', 'I', ','], "\n "@, seq![0, 0, 0], 0)) by { reveal_with_fuel(crate::text::witnessed, 5); }
    crate::text::lemma_witnessed_none(seq!['.', ' ', 'I', ','], "\n "@, seq![0, 0, 0], 0);
    crate::text::lemma_replace_none(seq!['.', ' ', 'I', ','], "\n "@, " "@);
    assert(crate::text::witnessed(seq!['.', ' ', 'I', ','], "  "@, seq![0, 1, 0], 0)) by { reveal_with_fuel(crate::text::witnessed, 5); }
    crate::text::lemma_witnessed_none(seq!['.', ' ', 'I', ','], "  "@, seq![0, 1, 0], 0);
    crate::text::lemma_replace_none(seq!['.', ' ', 'I', ','], "  "@, " "@);
    assert(crate::text::witnessed(seq!['.', ' ', 'I', ','], "Boost"@, seq![], 0)) by { reveal_with_fuel(crate::text::witnessed, 2); }
    crate::text::lemma_witnessed_none(seq!['.', ' ', 'I', ','], "Boost"@, seq![], 0);
    crate::text::lemma_replace_none(seq!['.', ' ', 'I', ','], "Boost"@, "¤(Boost)"@);
    assert(crate::text::witnessed(seq!['.', ' ', 'I', ','], "boost"@, seq![], 0)) by { reveal_with_fuel(crate::text::witnessed, 2); }
    crate::text::lemma_witnessed_none(seq!['.', ' ', 'I', ','], "boost"@, seq![], 0);
    crate::text::lemma_replace_none(seq!['.', ' ', 'I', ','], "boost"@, "¤(boost)"@);
    assert(crate::text::witnessed(seq!['.', ' ', 'I', ','], "experience"@, seq![], 0)) by { reveal_with_fuel(crate::text::witnessed, 2); }
    crate::text::lemma_witnessed_none(seq!['.', ' ', 'I', ','], "experience"@, seq![], 0);
    crate::text::lemma_replace_none(seq!['.', ' ', 'I', ','], "experience"@, "¤(xp)"@);
    assert(crate::text::witnessed(seq!['.', ' ', 'I', ','], "Experience"@, seq![], 0)) by { reveal_with_fuel(crate::text::witnessed, 2); }
    crate::text::lemma_witnessed_none(seq!['.', ' ', 'I', ','], "Experience"@, seq![], 0);
    crate::text::lemma_replace_none(seq!['.', ' ', 'I', ','], "Experience"@, "¤(Xp)"@);
    assert(crate::text::witnessed(seq!['.', ' ', 'I', ','], " mana "@, seq![], 0)) by { reveal_with_fuel(crate::text::witnessed, 2); }
    crate::text::lemma_witnessed_none(seq!['.', ' ', 'I', ','], " mana "@, seq![], 0);
    crate::text::lemma_replace_none(seq!['.', ' ', 'I', ','], " mana "@, " ¤(mana) "@);
}

/// What group 1 makes of the middle of phrase 28.
proof fn lemma_phrase_28_group_1()
    ensures
        phrase_group_1(seq!['.', ' ', 'I', ',']) == seq!['.', ' ', 'I', ','],
{
    reveal(phrase_group_1);
    reveal_strlit(" Mana ");
    reveal_strlit(" Mana,");
    reveal_strlit(" Mana.");
    reveal_strlit(" mana,");
    reveal_strlit(" mana.");
    reveal_strlit(" ¤(Mana) ");
    reveal_strlit(" ¤(Mana),");
    reveal_strlit(" ¤(Mana).");
    reveal_strlit(" ¤(mana),");
    reveal_strlit(" ¤(mana).");
    reveal_strlit("I am");
    reveal_strlit("I'm");
    reveal_strlit("I’m");
    assert(crate::text::witnessed(seq!['.', ' ', 'I', ','], " mana."@, seq![], 0)) by { reveal_with_fuel(crate::text::witnessed, 2); }
    crate::text::lemma_witnessed_none(seq!['.', ' ', 'I', ','], " mana."@, seq![], 0);
    crate::text::lemma_replace_none(seq!['.', ' ', 'I', ','], " mana."@, " ¤(mana)."@);
    assert(crate::text::witnessed(seq!['.', ' ', 'I', ','], " mana,"@, seq![], 0)) by { reveal_with_fuel(crate::text::witnessed, 2); }
    crate::text::lemma_witnessed_none(seq!['.', ' ', 'I', ','], " mana,"@, seq![], 0);
    crate::text::lemma_replace_none(seq!['.', ' ', 'I', ','], " mana,"@, " ¤(mana),"@);
    assert(crate::text::witnessed(seq!['.', ' ', 'I', ','], " Mana "@, seq![], 0)) by { reveal_with_fuel(crate::text::witnessed, 2); }
    crate::text::lemma_witnessed_none(seq!['.', ' ', 'I', ','], " Mana "@, seq![], 0);
    crate::text::lemma_replace_none(seq!['.', ' ', 'I', ','], " Mana "@, " ¤(Mana) "@);
    assert(crate::text::witnessed(seq!['.', ' ', 'I', ','], " Mana."@, seq![], 0)) by { reveal_with_fuel(crate::text::witnessed, 2); }
    crate::text::lemma_witnessed_none(seq!['.', ' ', 'I', ','], " Mana."@, seq![], 0);
    crate::text::lemma_replace_none(seq!['.', ' ', 'I', ','], " Mana."@, " ¤(Mana)."@);
    assert(crate::text::witnessed(seq!['.', ' ', 'I', ','], " Mana,"@, seq![], 0)) by { reveal_with_fuel(crate::text::witnessed, 2); }
    crate::text::lemma_witnessed_none(seq!['.', ' ', 'I', ','], " Mana,"@, seq![], 0);
    crate::text::lemma_replace_none(seq!['.', ' ', 'I', ','], " Mana,"@, " ¤(Mana),"@);
    assert(crate::text::witnessed(seq!['.', ' ', 'I', ','], "I’m"@, seq![0, 0], 0)) by { reveal_with_fuel(crate::text::witnessed, 4); }
    crate::text::lemma_witnessed_none(seq!['.', ' ', 'I', ','], "I’m"@, seq![0, 0], 0);
    crate::text::lemma_replace_none(seq!['.', ' ', 'I', ','], "I’m"@, "I am"@);
    assert(crate::text::witnessed(seq!['.', ' ', 'I', ','], "I'm"@, seq![0, 0], 0)) by { reveal_with_fuel(crate::text::witnessed, 4); }
    crate::text::lemma_witnessed_none(seq!['.', ' ', 'I', ','], "I'm"@, seq![0, 0], 0);
    crate::text::lemma_replace_none(seq!['.', ' ', 'I', ','], "I'm"@, "I am"@);
}

/// What group 2 makes of the middle of phrase 28.
proof fn lemma_phrase_28_group_2()
    ensures
        phrase_group_2(seq!['.', ' ', 'I', ',']) == seq!['.', ' ', 'I', ','],
{
    reveal(phrase_group_2);
    reveal_strlit(" I am ");
    reveal_strlit(" I have");
    reveal_strlit(" me ");
    reveal_strlit(" my ");
    reveal_strlit(" ¤(I have)");
    reveal_strlit(" ¤(i am) ");
    reveal_strlit(" ¤(i have)");
    reveal_strlit(" ¤(me) ");
    reveal_strlit(" ¤(my) ");
    reveal_strlit(". I am ");
    reveal_strlit(". I have");
    reveal_strlit(". My ");
    reveal_strlit(". ¤(I am) ");
    reveal_strlit(". ¤(My) ");
    assert(crate::text::witnessed(seq!['.', ' ', 'I', ','], ". I am "@, seq![], 0)) by { reveal_with_fuel(crate::text::witnessed, 2); }
    crate::text::lemma_witnessed_none(seq!['.', ' ', 'I', ','], ". I am "@, seq![], 0);
    crate::text::lemma_replace_none(seq!['.', ' ', 'I', ','], ". I am "@, ". ¤(I am) "@);
    assert(crate::text::witnessed(seq!['.', ' ', 'I', ','], " I am "@, seq![], 0)) by { reveal_with_fuel(crate::text::witnessed, 2); }
    crate::text::lemma_witnessed_none(seq!['.', ' ', 'I', ','], " I am "@, seq![], 0);
    crate::text::lemma_replace_none(seq!['.', ' ', 'I', ','], " I am "@, " ¤(i am) "@);
    assert(crate::text::witnessed(seq!['.', ' ', 'I', ','], " I have"@, seq![], 0)) by { reveal_with_fuel(crate::text::witnessed, 2); }
    crate::text::lemma_witnessed_none(seq!['.', ' ', 'I', ','], " I have"@, seq![], 0);
    crate::text::lemma_replace_none(seq!['.', ' ', 'I', ','], " I have"@, " ¤(i have)"@);
    assert(crate::text::witnessed(seq!['.', ' ', 'I', ','], ". I have"@, seq![], 0)) by { reveal_with_fuel(crate::text::witnessed, 2); }
    crate::text::lemma_witnessed_none(seq!['.', ' ', 'I', ','], ". I have"@, seq![], 0);
    crate::text::lemma_replace_none(seq!['.', ' ', 'I', ','], ". I have"@, " ¤(I have)"@);
    assert(crate::text::witnessed(seq!['.', ' ', 'I', ','], " my "@, seq![0], 0)) by { reveal_with_fuel(crate::text::witnessed, 3); }
    crate::text::lemma_witnessed_none(seq!['.', ' ', 'I', ','], " my "@, seq![0], 0);
    crate::text::lemma_replace_none(seq!['.', ' ', 'I', ','], " my "@, " ¤(my) "@);
    assert(crate::text::witnessed(seq!['.', ' ', 'I', ','], ". My "@, seq![], 0)) by { reveal_with_fuel(crate::text::witnessed, 2); }
    crate::text::lemma_witnessed_none(seq!['.', ' ', 'I', ','], ". My "@, seq![], 0);
    crate::text::lemma_replace_none(seq!['.', ' ', 'I', ','], ". My "@, ". ¤(My) "@);
    assert(crate::text::witnessed(seq!['.', ' ', 'I', ','], " me "@, seq![0], 0)) by { reveal_with_fuel(crate::text::witnessed, 3); }
    crate::text::lemma_witnessed_none(seq!['.', ' ', 'I', ','], " me "@, seq![0], 0);
    crate::text::lemma_replace_none(seq!['.', ' ', 'I', ','], " me "@, " ¤(me) "@);
}

/// What group 3 makes of the middle of phrase 28.
proof fn lemma_phrase_28_group_3()
    ensures
        phrase_group_3(seq!['.', ' ', 'I', ',']) == seq!['.', ' ', 'I', ','],
{
    reveal(phrase_group_3);
    reveal_strlit(" Me ");
    reveal_strlit(" Me,");
    reveal_strlit(" Me.");
    reveal_strlit(" me,");
    reveal_strlit(" me.");
    reveal_strlit(" ¤(Me) ");
    reveal_strlit(" ¤(Me),");
    reveal_strlit(" ¤(Me).");
    reveal_strlit(" ¤(me),");
    reveal_strlit(" ¤(me).");
    reveal_strlit(". I ");
    reveal_strlit(". ¤(I) ");
    reveal_strlit("\nI ");
    reveal_strlit("\n¤(I) ");
    assert(crate::text::witnessed(seq!['.', ' ', 'I', ','], " me,"@, seq![0], 0)) by { reveal_with_fuel(crate::text::witnessed, 3); }
    crate::text::lemma_witnessed_none(seq!['.', ' ', 'I', ','], " me,"@, seq![0], 0);
    crate::text::lemma_replace_none(seq!['.', ' ', 'I', ','], " me,"@, " ¤(me),"@);
    assert(crate::text::witnessed(seq!['.', ' ', 'I', ','], " me."@, seq![0], 0)) by { reveal_with_fuel(crate::text::witnessed, 3); }
    crate::text::lemma_witnessed_none(seq!['.', ' ', 'I', ','], " me."@, seq![0], 0);
    crate::text::lemma_replace_none(seq!['.', ' ', 'I', ','], " me."@, " ¤(me)."@);
    assert(crate::text::witnessed(seq!['.', ' ', 'I', ','], " Me "@, seq![0], 0)) by { reveal_with_fuel(crate::text::witnessed, 3); }
    crate::text::lemma_witnessed_none(seq!['.', ' ', 'I', ','], " Me "@, seq![0], 0);
    crate::text::lemma_replace_none(seq!['.', ' ', 'I', ','], " Me "@, " ¤(Me) "@);
    assert(crate::text::witnessed(seq!['.', ' ', 'I', ','], " Me,"@, seq![0], 0)) by { reveal_with_fuel(crate::text::witnessed, 3); }
    crate::text::lemma_witnessed_none(seq!['.', ' ', 'I', ','], " Me,"@, seq![0], 0);
    crate::text::lemma_replace_none(seq!['.', ' ', 'I', ','], " Me,"@, " ¤(Me),"@);
    assert(crate::text::witnessed(seq!['.', ' ', 'I', ','], " Me."@, seq![0], 0)) by { reveal_with_fuel(crate::text::witnessed, 3); }
    crate::text::lemma_witnessed_none(seq!['.', ' ', 'I', ','], " Me."@, seq![0], 0);
    crate::text::lemma_replace_none(seq!['.', ' ', 'I', ','], " Me."@, " ¤(Me)."@);
    assert(crate::text::witnessed(seq!['.', ' ', 'I', ','], "\nI "@, seq![0, 0], 0)) by { reveal_with_fuel(crate::text::witnessed, 4); }
    crate::text::lemma_witnessed_none(seq!['.', ' ', 'I', ','], "\nI "@, seq![0, 0], 0);
    crate::text::lemma_replace_none(seq!['.', ' ', 'I', ','], "\nI "@, "\n¤(I) "@);
    assert(crate::text::witnessed(seq!['.', ' ', 'I', ','], ". I "@, seq![3], 0)) by { reveal_with_fuel(crate::text::witnessed, 3); }
    crate::text::lemma_witnessed_none(seq!['.', ' ', 'I', ','], ". I "@, seq![3], 0);
    crate::text::lemma_replace_none(seq!['.', ' ', 'I', ','], ". I "@, ". ¤(I) "@);
}

/// What group 4 makes of the middle of phrase 28.
proof fn lemma_phrase_28_group_4()
    ensures
        phrase_group_4(seq!['.', ' ', 'I', ',']) == seq!['.', ' ', '\u{a4}', '(', 'I', ')', ','],
{
    reveal(phrase_group_4);
    reveal_strlit(" I ");
    reveal_strlit(" I,");
    reveal_strlit(" I.");
    reveal_strlit(" ¤(i) ");
    reveal_strlit(" ¤(i),");
    reveal_strlit(" ¤(i).");
    reveal_strlit(". I,");
    reveal_strlit(". I.");
    reveal_strlit(". ¤(I),");
    reveal_strlit(". ¤(I). ");
    reveal_strlit("Cards ¤(I am) attached to");
    reveal_strlit("The card ¤(I am) attached to");
    reveal_strlit("cards ¤(I am) attached to");
    reveal_strlit("the card ¤(I am) attached to");
    assert(crate::text::witnessed_until(seq!['.', ' ', 'I', ','], ". I,"@, seq![], 0, 0)) by { reveal_with_fuel(crate::text::witnessed_until, 2); }
    assert(crate::text::witnessed(seq!['.', ' ', 'I', ','], ". I,"@, seq![0, 0, 0, 0], 4)) by { reveal_with_fuel(crate::text::witnessed, 6); }
    assert(seq!['.', ' ', 'I', ','].subrange(0, 4) =~= ". I,"@);
    crate::text::lemma_replace_once(seq!['.', ' ', 'I', ','], ". I,"@, ". ¤(I),"@, 0, seq![], seq![0, 0, 0, 0]);
    assert(seq!['.', ' ', 'I', ','].subrange(0, 0) + ". ¤(I),"@ + seq!['.', ' ', 'I', ','].subrange(4, 4) =~= seq!['.', ' ', '\u{a4}', '(', 'I', ')', ',']);
    assert(crate::text::witnessed(seq!['.', ' ', '\u{a4}', '(', 'I', ')', ','], ". I."@, seq![2, 0, 0, 0], 0)) by { reveal_with_fuel(crate::text::witnessed, 6); }
    crate::text::lemma_witnessed_none(seq!['.', ' ', '\u{a4}', '(', 'I', ')', ','], ". I."@, seq![2, 0, 0, 0], 0);
    crate::text::lemma_replace_none(seq!['.', ' ', '\u{a4}', '(', 'I', ')', ','], ". I."@, ". ¤(I). "@);
    assert(crate::text::witnessed(seq!['.', ' ', '\u{a4}', '(', 'I', ')', ','], " I "@, seq![0, 1, 0, 0, 0], 0)) by { reveal_with_fuel(crate::text::witnessed, 7); }
    crate::text::lemma_witnessed_none(seq!['.', ' ', '\u{a4}', '(', 'I', ')', ','], " I "@, seq![0, 1, 0, 0, 0], 0);
    crate::text::lemma_replace_none(seq!['.', ' ', '\u{a4}', '(', 'I', ')', ','], " I "@, " ¤(i) "@);
    assert(crate::text::witnessed(seq!['.', ' ', '\u{a4}', '(', 'I', ')', ','], " I,"@, seq![0, 1, 0, 0, 0], 0)) by { reveal_with_fuel(crate::text::witnessed, 7); }
    crate::text::lemma_witnessed_none(seq!['.', ' ', '\u{a4}', '(', 'I', ')', ','], " I,"@, seq![0, 1, 0, 0, 0], 0);
    crate::text::lemma_replace_none(seq!['.', ' ', '\u{a4}', '(', 'I', ')', ','], " I,"@, " ¤(i),"@);
    assert(crate::text::witnessed(seq!['.', ' ', '\u{a4}', '(', 'I', ')', ','], " I."@, seq![0, 1, 0, 0, 0], 0)) by { reveal_with_fuel(crate::text::witnessed, 7); }
    crate::text::lemma_witnessed_none(seq!['.', ' ', '\u{a4}', '(', 'I', ')', ','], " I."@, seq![0, 1, 0, 0, 0], 0);
    crate::text::lemma_replace_none(seq!['.', ' ', '\u{a4}', '(', 'I', ')', ','], " I."@, " ¤(i)."@);
    assert(crate::text::witnessed(seq!['.', ' ', '\u{a4}', '(', 'I', ')', ','], "Cards ¤(I am) attached to"@, seq![], 0)) by { reveal_with_fuel(crate::text::witnessed, 2); }
    crate::text::lemma_witnessed_none(seq!['.', ' ', '\u{a4}', '(', 'I', ')', ','], "Cards ¤(I am) attached to"@, seq![], 0);
    crate::text::lemma_replace_none(seq!['.', ' ', '\u{a4}', '(', 'I', ')', ','], "Cards ¤(I am) attached to"@, "The card ¤(I am) attached to"@);
    assert(crate::text::witnessed(seq!['.', ' ', '\u{a4}', '(', 'I', ')', ','], "cards ¤(I am) attached to"@, seq![], 0)) by { reveal_with_fuel(crate::text::witnessed, 2); }
    crate::text::lemma_witnessed_none(seq!['.', ' ', '\u{a4}', '(', 'I', ')', ','], "cards ¤(I am) attached to"@, seq![], 0);
    crate::text::lemma_replace_none(seq!['.', ' ', '\u{a4}', '(', 'I', ')', ','], "cards ¤(I am) attached to"@, "the card ¤(I am) attached to"@);
}

/// Between digits, phrase 28 becomes what the card text makes of it.
proof fn lemma_phrase_28(x: Seq<char>, y: Seq<char>)
    requires
        all_digits(x),
        all_digits(y),
        trim(x + ". I,"@ + y) == x + ". I,"@ + y,
    ensures
        phrase_commands(x + ". I,"@ + y) == Some(x + seq!['.', ' ', '\u{a4}', '(', 'I', ')', ','] + y),
{
    reveal_strlit(". I,");
    assert(". I,"@ =~= seq!['.', ' ', 'I', ',']);
    reveal_strlit("Card with");
    reveal_strlit("card with");
    reveal_strlit("Cards with");
    reveal_strlit("cards with");
    let m0 = seq!['.', ' ', 'I', ','];
    lemma_group_framed_0(x, m0, y);
    lemma_phrase_28_group_0();
    let m1 = phrase_group_0(m0);
    lemma_group_framed_1(x, m1, y);
    lemma_phrase_28_group_1();
    let m2 = phrase_group_1(m1);
    lemma_group_framed_2(x, m2, y);
    lemma_phrase_28_group_2();
    let m3 = phrase_group_2(m2);
    lemma_group_framed_3(x, m3, y);
    lemma_phrase_28_group_3();
    let m4 = phrase_group_3(m3);
    lemma_group_framed_4(x, m4, y);
    lemma_phrase_28_group_4();
    let m5 = phrase_group_4(m4);
    assert(crate::text::witnessed(seq!['.', ' ', '\u{a4}', '(', 'I', ')', ','], "Card with"@, seq![], 0)) by { reveal_with_fuel(crate::text::witnessed, 2); }
    crate::text::lemma_witnessed_none(seq!['.', ' ', '\u{a4}', '(', 'I', ')', ','], "Card with"@, seq![], 0);
    assert(digit_free("Card with"@));
    crate::text::lemma_replace_framed(x, seq!['.', ' ', '\u{a4}', '(', 'I', ')', ','], y, "Card with"@, "Card with"@);
    assert(with_marker(WithPhrase::Card) == "Card with"@);
    assert(crate::text::witnessed(seq!['.', ' ', '\u{a4}', '(', 'I', ')', ','], "card with"@, seq![], 0)) by { reveal_with_fuel(crate::text::witnessed, 2); }
    crate::text::lemma_witnessed_none(seq!['.', ' ', '\u{a4}', '(', 'I', ')', ','], "card with"@, seq![], 0);
    assert(digit_free("card with"@));
    crate::text::lemma_replace_framed(x, seq!['.', ' ', '\u{a4}', '(', 'I', ')', ','], y, "card with"@, "card with"@);
    assert(with_marker(WithPhrase::CardLower) == "card with"@);
    assert(crate::text::witnessed(seq!['.', ' ', '\u{a4}', '(', 'I', ')', ','], "Cards with"@, seq![], 0)) by { reveal_with_fuel(crate::text::witnessed, 2); }
    crate::text::lemma_witnessed_none(seq!['.', ' ', '\u{a4}', '(', 'I', ')', ','], "Cards with"@, seq![], 0);
    assert(digit_free("Cards with"@));
    crate::text::lemma_replace_framed(x, seq!['.', ' ', '\u{a4}', '(', 'I', ')', ','], y, "Cards with"@, "Cards with"@);
    assert(with_marker(WithPhrase::Cards) == "Cards with"@);
    assert(crate::text::witnessed(seq!['.', ' ', '\u{a4}', '(', 'I', ')', ','], "cards with"@, seq![], 0)) by { reveal_with_fuel(crate::text::witnessed, 2); }
    crate::text::lemma_witnessed_none(seq!['.', ' ', '\u{a4}', '(', 'I', ')', ','], "cards with"@, seq![], 0);
    assert(digit_free("cards with"@));
    crate::text::lemma_replace_framed(x, seq!['.', ' ', '\u{a4}', '(', 'I', ')', ','], y, "cards with"@, "cards with"@);
    assert(with_marker(WithPhrase::CardsLower) == "cards with"@);
}

/// What group 0 makes of the middle of phrase 29.
proof fn lemma_phrase_29_group_0()
    ensures
        phrase_group_0(seq!['.', ' ', 'I', '.']) == seq!['.', ' ', 'I', '.'],
{
    reveal(phrase_group_0);
    reveal_strlit(" ");
    reveal_strlit("  ");
    reveal_strlit(" mana ");
    reveal_strlit(" ¤(mana) ");
    reveal_strlit("Boost");
    reveal_strlit("Experience");
    reveal_strlit("\n ");
    reveal_strlit("boost");
    reveal_strlit("experience");
    reveal_strlit("¤(Boost)");
    reveal_strlit("¤(Xp)");
    reveal_strlit("¤(boost)");
    reveal_strlit("¤(xp)");
    assert(crate::text::witnessed(seq!['.', ' ', 'I', '.'], "\n "@, seq![0, 0, 0], 0)) by { reveal_with_fuel(crate::text::witnessed, 5); }
    crate::text::lemma_witnessed_none(seq!['.', ' ', 'I', '.'], "\n "@, seq![0, 0, 0], 0);
    crate::text::lemma_replace_none(seq!['.', ' ', 'I', '.'], "\n "@, " "@);
    assert(crate::text::witnessed(seq!['.', ' ', 'I', '.'], "  "@, seq![0, 1, 0], 0)) by { reveal_with_fuel(crate::text::witnessed, 5); }
    crate::text::lemma_witnessed_none(seq!['.', ' ', 'I', '.'], "  "@, seq![0, 1, 0], 0);
    crate::text::lemma_replace_none(seq!['.', ' ', 'I', '.'], "  "@, " "@);
    assert(crate::text::witnessed(seq!['.', ' ', 'I', '.'], "Boost"@, seq![], 0)) by { reveal_with_fuel(crate::text::witnessed, 2); }
    crate::text::lemma_witnessed_none(seq!['.', ' ', 'I', '.'], "Boost"@, seq![], 0);
    crate::text::lemma_replace_none(seq!['.', ' ', 'I', '.'], "Boost"@, "¤(Boost)"@);
    assert(crate::text::witnessed(seq!['.', ' ', 'I', '.'], "boost"@, seq![], 0)) by { reveal_with_fuel(crate::text::witnessed, 2); }
    crate::text::lemma_witnessed_none(seq!['.', ' ', 'I', '.'], "boost"@, seq![], 0);
    crate::text::lemma_replace_none(seq!['.', ' ', 'I', '.'], "boost"@, "¤(boost)"@);
    assert(crate::text::witnessed(seq!['.', ' ', 'I', '.'], "experience"@, seq![], 0)) by { reveal_with_fuel(crate::text::witnessed, 2); }
    crate::text::lemma_witnessed_none(seq!['.', ' ', 'I', '.'], "experience"@, seq![], 0);
    crate::text::lemma_replace_none(seq!['.', ' ', 'I', '.'], "experience"@, "¤(xp)"@);
    assert(crate::text::witnessed(seq!['.', ' ', 'I', '.'], "Experience"@, seq![], 0)) by { reveal_with_fuel(crate::text::witnessed, 2); }
    crate::text::lemma_witnessed_none(seq!['.', ' ', 'I', '.'], "Experience"@, seq![], 0);
    crate::text::lemma_replace_none(seq!['.', ' ', 'I', '.'], "Experience"@, "¤(Xp)"@);
    assert(crate::text::witnessed(seq!['.', ' ', 'I', '.'], " mana "@, seq![], 0)) by { reveal_with_fuel(crate::text::witnessed, 2); }
    crate::text::lemma_witnessed_none(seq!['.', ' ', 'I', '.'], " mana "@, seq![], 0);
    crate::text::lemma_replace_none(seq!['.', ' ', 'I', '.'], " mana "@, " ¤(mana) "@);
}

/// What group 1 makes of the middle of phrase 29.
proof fn lemma_phrase_29_group_1()
    ensures
        phrase_group_1(seq!['.', ' ', 'I', '.']) == seq!['.', ' ', 'I', '.'],
{
    reveal(phrase_group_1);
    reveal_strlit(" Mana ");
    reveal_strlit(" Mana,");
    reveal_strlit(" Mana.");
    reveal_strlit(" mana,");
    reveal_strlit(" mana.");
    reveal_strlit(" ¤(Mana) ");
    reveal_strlit(" ¤(Mana),");
    reveal_strlit(" ¤(Mana).");
    reveal_strlit(" ¤(mana),");
    reveal_strlit(" ¤(mana).");
    reveal_strlit("I am");
    reveal_strlit("I'm");
    reveal_strlit("I’m");
    assert(crate::text::witnessed(seq!['.', ' ', 'I', '.'], " mana."@, seq![], 0)) by { reveal_with_fuel(crate::text::witnessed, 2); }
    crate::text::lemma_witnessed_none(seq!['.', ' ', 'I', '.'], " mana."@, seq![], 0);
    crate::text::lemma_replace_none(seq!['.', ' ', 'I', '.'], " mana."@, " ¤(mana)."@);
    assert(crate::text::witnessed(seq!['.', ' ', 'I', '.'], " mana,"@, seq![], 0)) by { reveal_with_fuel(crate::text::witnessed, 2); }
    crate::text::lemma_witnessed_none(seq!['.', ' ', 'I', '.'], " mana,"@, seq![], 0);
    crate::text::lemma_replace_none(seq!['.', ' ', 'I', '.'], " mana,"@, " ¤(mana),"@);
    assert(crate::text::witnessed(seq!['.', ' ', 'I', '.'], " Mana "@, seq![], 0)) by { reveal_with_fuel(crate::text::witnessed, 2); }
    crate::text::lemma_witnessed_none(seq!['.', ' ', 'I', '.'], " Mana "@, seq![], 0);
    crate::text::lemma_replace_none(seq!['.', ' ', 'I', '.'], " Mana "@, " ¤(Mana) "@);
    assert(crate::text::witnessed(seq!['.', ' ', 'I', '.'], " Mana."@, seq![], 0)) by { reveal_with_fuel(crate::text::witnessed, 2); }
    crate::text::lemma_witnessed_none(seq!['.', ' ', 'I', '.'], " Mana."@, seq![], 0);
    crate::text::lemma_replace_none(seq!['.', ' ', 'I', '.'], " Mana."@, " ¤(Mana)."@);
    assert(crate::text::witnessed(seq!['.', ' ', 'I', '.'], " Mana,"@, seq![], 0)) by { reveal_with_fuel(crate::text::witnessed, 2); }
    crate::text::lemma_witnessed_none(seq!['.', ' ', 'I', '.'], " Mana,"@, seq![], 0);
    crate::text::lemma_replace_none(seq!['.', ' ', 'I', '.'], " Mana,"@, " ¤(Mana),"@);
    assert(crate::text::witnessed(seq!['.', ' ', 'I', '.'], "I’m"@, seq![0, 0], 0)) by { reveal_with_fuel(crate::text::witnessed, 4); }
    crate::text::lemma_witnessed_none(seq!['.', ' ', 'I', '.'], "I’m"@, seq![0, 0], 0);
    crate::text::lemma_replace_none(seq!['.', ' ', 'I', '.'], "I’m"@, "I am"@);
    assert(crate::text::witnessed(seq!['.', ' ', 'I', '.'], "I'm"@, seq![0, 0], 0)) by { reveal_with_fuel(crate::text::witnessed, 4); }
    crate::text::lemma_witnessed_none(seq!['.', ' ', 'I', '.'], "I'm"@, seq![0, 0], 0);
    crate::text::lemma_replace_none(seq!['.', ' ', 'I', '.'], "I'm"@, "I am"@);
}

/// What group 2 makes of the middle of phrase 29.
proof fn lemma_phrase_29_group_2()
    ensures
        phrase_group_2(seq!['.', ' ', 'I', '.']) == seq!['.', ' ', 'I', '.'],
{
    reveal(phrase_group_2);
    reveal_strlit(" I am ");
    reveal_strlit(" I have");
    reveal_strlit(" me ");
    reveal_strlit(" my ");
    reveal_strlit(" ¤(I have)");
    reveal_strlit(" ¤(i am) ");
    reveal_strlit(" ¤(i have)");
    reveal_strlit(" ¤(me) ");
    reveal_strlit(" ¤(my) ");
    reveal_strlit(". I am ");
    reveal_strlit(". I have");
    reveal_strlit(". My ");
    reveal_strlit(". ¤(I am) ");
    reveal_strlit(". ¤(My) ");
    assert(crate::text::witnessed(seq!['.', ' ', 'I', '.'], ". I am "@, seq![], 0)) by { reveal_with_fuel(crate::text::witnessed, 2); }
    crate::text::lemma_witnessed_none(seq!['.', ' ', 'I', '.'], ". I am "@, seq![], 0);
    crate::text::lemma_replace_none(seq!['.', ' ', 'I', '.'], ". I am "@, ". ¤(I am) "@);
    assert(crate::text::witnessed(seq!['.', ' ', 'I', '.'], " I am "@, seq![], 0)) by { reveal_with_fuel(crate::text::witnessed, 2); }
    crate::text::lemma_witnessed_none(seq!['.', ' ', 'I', '.'], " I am "@, seq![], 0);
    crate::text::lemma_replace_none(seq!['.', ' ', 'I', '.'], " I am "@, " ¤(i am) "@);
    assert(crate::text::witnessed(seq!['.', ' ', 'I', '.'], " I have"@, seq![], 0)) by { reveal_with_fuel(crate::text::witnessed, 2); }
    crate::text::lemma_witnessed_none(seq!['.', ' ', 'I', '.'], " I have"@, seq![], 0);
    crate::text::lemma_replace_none(seq!['.', ' ', 'I', '.'], " I have"@, " ¤(i have)"@);
    assert(crate::text::witnessed(seq!['.', ' ', 'I', '.'], ". I have"@, seq![], 0)) by { reveal_with_fuel(crate::text::witnessed, 2); }
    crate::text::lemma_witnessed_none(seq!['.', ' ', 'I', '.'], ". I have"@, seq![], 0);
    crate::text::lemma_replace_none(seq!['.', ' ', 'I', '.'], ". I have"@, " ¤(I have)"@);
    assert(crate::text::witnessed(seq!['.', ' ', 'I', '.'], " my "@, seq![0], 0)) by { reveal_with_fuel(crate::text::witnessed, 3); }
    crate::text::lemma_witnessed_none(seq!['.', ' ', 'I', '.'], " my "@, seq![0], 0);
    crate::text::lemma_replace_none(seq!['.', ' ', 'I', '.'], " my "@, " ¤(my) "@);
    assert(crate::text::witnessed(seq!['.', ' ', 'I', '.'], ". My "@, seq![], 0)) by { reveal_with_fuel(crate::text::witnessed, 2); }
    crate::text::lemma_witnessed_none(seq!['.', ' ', 'I', '.'], ". My "@, seq![], 0);
    crate::text::lemma_replace_none(seq!['.', ' ', 'I', '.'], ". My "@, ". ¤(My) "@);
    assert(crate::text::witnessed(seq!['.', ' ', 'I', '.'], " me "@, seq![0], 0)) by { reveal_with_fuel(crate::text::witnessed, 3); }
    crate::text::lemma_witnessed_none(seq!['.', ' ', 'I', '.'], " me "@, seq![0], 0);
    crate::text::lemma_replace_none(seq!['.', ' ', 'I', '.'], " me "@, " ¤(me) "@);
}

/// What group 3 makes of the middle of phrase 29.
proof fn lemma_phrase_29_group_3()
    ensures
        phrase_group_3(seq!['.', ' ', 'I', '.']) == seq!['.', ' ', 'I', '.'],
{
    reveal(phrase_group_3);
    reveal_strlit(" Me ");
    reveal_strlit(" Me,");
    reveal_strlit(" Me.");
    reveal_strlit(" me,");
    reveal_strlit(" me.");
    reveal_strlit(" ¤(Me) ");
    reveal_strlit(" ¤(Me),");
    reveal_strlit(" ¤(Me).");
    reveal_strlit(" ¤(me),");
    reveal_strlit(" ¤(me).");
    reveal_strlit(". I ");
    reveal_strlit(". ¤(I) ");
    reveal_strlit("\nI ");
    reveal_strlit("\n¤(I) ");
    assert(crate::text::witnessed(seq!['.', ' ', 'I', '.'], " me,"@, seq![0], 0)) by { reveal_with_fuel(crate::text::witnessed, 3); }
    crate::text::lemma_witnessed_none(seq!['.', ' ', 'I', '.'], " me,"@, seq![0], 0);
    crate::text::lemma_replace_none(seq!['.', ' ', 'I', '.'], " me,"@, " ¤(me),"@);
    assert(crate::text::witnessed(seq!['.', ' ', 'I', '.'], " me."@, seq![0], 0)) by { reveal_with_fuel(crate::text::witnessed, 3); }
    crate::text::lemma_witnessed_none(seq!['.', ' ', 'I', '.'], " me."@, seq![0], 0);
    crate::text::lemma_replace_none(seq!['.', ' ', 'I', '.'], " me."@, " ¤(me)."@);
    assert(crate::text::witnessed(seq!['.', ' ', 'I', '.'], " Me "@, seq![0], 0)) by { reveal_with_fuel(crate::text::witnessed, 3); }
    crate::text::lemma_witnessed_none(seq!['.', ' ', 'I', '.'], " Me "@, seq![0], 0);
    crate::text::lemma_replace_none(seq!['.', ' ', 'I', '.'], " Me "@, " ¤(Me) "@);
    assert(crate::text::witnessed(seq!['.', ' ', 'I', '.'], " Me,"@, seq![0], 0)) by { reveal_with_fuel(crate::text::witnessed, 3); }
    crate::text::lemma_witnessed_none(seq!['.', ' ', 'I', '.'], " Me,"@, seq![0], 0);
    crate::text::lemma_replace_none(seq!['.', ' ', 'I', '.'], " Me,"@, " ¤(Me),"@);
    assert(crate::text::witnessed(seq!['.', ' ', 'I', '.'], " Me."@, seq![0], 0)) by { reveal_with_fuel(crate::text::witnessed, 3); }
    crate::text::lemma_witnessed_none(seq!['.', ' ', 'I', '.'], " Me."@, seq![0], 0);
    crate::text::lemma_replace_none(seq!['.', ' ', 'I', '.'], " Me."@, " ¤(Me)."@);
    assert(crate::text::witnessed(seq!['.', ' ', 'I', '.'], "\nI "@, seq![0, 0], 0)) by { reveal_with_fuel(crate::text::witnessed, 4); }
    crate::text::lemma_witnessed_none(seq!['.', ' ', 'I', '.'], "\nI "@, seq![0, 0], 0);
    crate::text::lemma_replace_none(seq!['.', ' ', 'I', '.'], "\nI "@, "\n¤(I) "@);
    assert(crate::text::witnessed(seq!['.', ' ', 'I', '.'], ". I "@, seq![3], 0)) by { reveal_with_fuel(crate::text::witnessed, 3); }
    crate::text::lemma_witnessed_none(seq!['.', ' ', 'I', '.'], ". I "@, seq![3], 0);
    crate::text::lemma_replace_none(seq!['.', ' ', 'I', '.'], ". I "@, ". ¤(I) "@);
}

/// What group 4 makes of the middle of phrase 29.
proof fn lemma_phrase_29_group_4()
    ensures
        phrase_group_4(seq!['.', ' ', 'I', '.']) == seq!['.', ' ', '\u{a4}', '(', 'I', ')', '.', ' '],
{
    reveal(phrase_group_4);
    reveal_strlit(" I ");
    reveal_strlit(" I,");
    reveal_strlit(" I.");
    reveal_strlit(" ¤(i) ");
    reveal_strlit(" ¤(i),");
    reveal_strlit(" ¤(i).");
    reveal_strlit(". I,");
    reveal_strlit(". I.");
    reveal_strlit(". ¤(I),");
    reveal_strlit(". ¤(I). ");
    reveal_strlit("Cards ¤(I am) attached to");
    reveal_strlit("The card ¤(I am) attached to");
    reveal_strlit("cards ¤(I am) attached to");
    reveal_strlit("the card ¤(I am) attached to");
    assert(crate::text::witnessed(seq!['.', ' ', 'I', '.'], ". I,"@, seq![3], 0)) by { reveal_with_fuel(crate::text::witnessed, 3); }
    crate::text::lemma_witnessed_none(seq!['.', ' ', 'I', '.'], ". I,"@, seq![3], 0);
    crate::text::lemma_replace_none(seq!['.', ' ', 'I', '.'], ". I,"@, ". ¤(I),"@);
    assert(crate::text::witnessed_until(seq!['.', ' ', 'I', '.'], ". I."@, seq![], 0, 0)) by { reveal_with_fuel(crate::text::witnessed_until, 2); }
    assert(crate::text::witnessed(seq!['.', ' ', 'I', '.'], ". I."@, seq![0, 0, 0, 0], 4)) by { reveal_with_fuel(crate::text::witnessed, 6); }
    assert(seq!['.', ' ', 'I', '.'].subrange(0, 4) =~= ". I."@);
    crate::text::lemma_replace_once(seq!['.', ' ', 'I', '.'], ". I."@, ". ¤(I). "@, 0, seq![], seq![0, 0, 0, 0]);
    assert(seq!['.', ' ', 'I', '.'].subrange(0, 0) + ". ¤(I). "@ + seq!['.', ' ', 'I', '.'].subrange(4, 4) =~= seq!['.', ' ', '\u{a4}', '(', 'I', ')', '.', ' ']);
    assert(crate::text::witnessed(seq!['.', ' ', '\u{a4}', '(', 'I', ')', '.', ' '], " I "@, seq![0, 1, 0, 0, 0, 0], 0)) by { reveal_with_fuel(crate::text::witnessed, 8); }
    crate::text::lemma_witnessed_none(seq!['.', ' ', '\u{a4}', '(', 'I', ')', '.', ' '], " I "@, seq![0, 1, 0, 0, 0, 0], 0);
    crate::text::lemma_replace_none(seq!['.', ' ', '\u{a4}', '(', 'I', ')', '.', ' '], " I "@, " ¤(i) "@);
    assert(crate::text::witnessed(seq!['.', ' ', '\u{a4}', '(', 'I', ')', '.', ' '], " I,"@, seq![0, 1, 0, 0, 0, 0], 0)) by { reveal_with_fuel(crate::text::witnessed, 8); }
    crate::text::lemma_witnessed_none(seq!['.', ' ', '\u{a4}', '(', 'I', ')', '.', ' '], " I,"@, seq![0, 1, 0, 0, 0, 0], 0);
    crate::text::lemma_replace_none(seq!['.', ' ', '\u{a4}', '(', 'I', ')', '.', ' '], " I,"@, " ¤(i),"@);
    assert(crate::text::witnessed(seq!['.', ' ', '\u{a4}', '(', 'I', ')', '.', ' '], " I."@, seq![0, 1, 0, 0, 0, 0], 0)) by { reveal_with_fuel(crate::text::witnessed, 8); }
    crate::text::lemma_witnessed_none(seq!['.', ' ', '\u{a4}', '(', 'I', ')', '.', ' '], " I."@, seq![0, 1, 0, 0, 0, 0], 0);
    crate::text::lemma_replace_none(seq!['.', ' ', '\u{a4}', '(', 'I', ')', '.', ' '], " I."@, " ¤(i)."@);
    assert(crate::text::witnessed(seq!['.', ' ', '\u{a4}', '(', 'I', ')', '.', ' '], "Cards ¤(I am) attached to"@, seq![], 0)) by { reveal_with_fuel(crate::text::witnessed, 2); }
    crate::text::lemma_witnessed_none(seq!['.', ' ', '\u{a4}', '(', 'I', ')', '.', ' '], "Cards ¤(I am) attached to"@, seq![], 0);
    crate::text::lemma_replace_none(seq!['.', ' ', '\u{a4}', '(', 'I', ')', '.', ' '], "Cards ¤(I am) attached to"@, "The card ¤(I am) attached to"@);
    assert(crate::text::witnessed(seq!['.', ' ', '\u{a4}', '(', 'I', ')', '.', ' '], "cards ¤(I am) attached to"@, seq![], 0)) by { reveal_with_fuel(crate::text::witnessed, 2); }
    crate::text::lemma_witnessed_none(seq!['.', ' ', '\u{a4}', '(', 'I', ')', '.', ' '], "cards ¤(I am) attached to"@, seq![], 0);
    crate::text::lemma_replace_none(seq!['.', ' ', '\u{a4}', '(', 'I', ')', '.', ' '], "cards ¤(I am) attached to"@, "the card ¤(I am) attached to"@);
}

/// Between digits, phrase 29 becomes what the card text makes of it.
proof fn lemma_phrase_29(x: Seq<char>, y: Seq<char>)
    requires
        all_digits(x),
        all_digits(y),
        trim(x + ". I."@ + y) == x + ". I."@ + y,
    ensures
        phrase_commands(x + ". I."@ + y) == Some(x + seq!['.', ' ', '\u{a4}', '(', 'I', ')', '.', ' '] + y),
{
    reveal_strlit(". I.");
    assert(". I."@ =~= seq!['.', ' ', 'I', '.']);
    reveal_strlit("Card with");
    reveal_strlit("card with");
    reveal_strlit("Cards with");
    reveal_strlit("cards with");
    let m0 = seq!['.', ' ', 'I', '.'];
    lemma_group_framed_0(x, m0, y);
    lemma_phrase_29_group_0();
    let m1 = phrase_group_0(m0);
    lemma_group_framed_1(x, m1, y);
    lemma_phrase_29_group_1();
    let m2 = phrase_group_1(m1);
    lemma_group_framed_2(x, m2, y);
    lemma_phrase_29_group_2();
    let m3 = phrase_group_2(m2);
    lemma_group_framed_3(x, m3, y);
    lemma_phrase_29_group_3();
    let m4 = phrase_group_3(m3);
    lemma_group_framed_4(x, m4, y);
    lemma_phrase_29_group_4();
    let m5 = phrase_group_4(m4);
    assert(crate::text::witnessed(seq!['.', ' ', '\u{a4}', '(', 'I', ')', '.', ' '], "Card with"@, seq![], 0)) by { reveal_with_fuel(crate::text::witnessed, 2); }
    crate::text::lemma_witnessed_none(seq!['.', ' ', '\u{a4}', '(', 'I', ')', '.', ' '], "Card with"@, seq![], 0);
    assert(digit_free("Card with"@));
    crate::text::lemma_replace_framed(x, seq!['.', ' ', '\u{a4}', '(', 'I', ')', '.', ' '], y, "Card with"@, "Card with"@);
    assert(with_marker(WithPhrase::Card) == "Card with"@);
    assert(crate::text::witnessed(seq!['.', ' ', '\u{a4}', '(', 'I', ')', '.', ' '], "card with"@, seq![], 0)) by { reveal_with_fuel(crate::text::witnessed, 2); }
    crate::text::lemma_witnessed_none(seq!['.', ' ', '\u{a4}', '(', 'I', ')', '.', ' '], "card with"@, seq![], 0);
    assert(digit_free("card with"@));
    crate::text::lemma_replace_framed(x, seq!['.', ' ', '\u{a4}', '(', 'I', ')', '.', ' '], y, "card with"@, "card with"@);
    assert(with_marker(WithPhrase::CardLower) == "card with"@);
    assert(crate::text::witnessed(seq!['.', ' ', '\u{a4}', '(', 'I', ')', '.', ' '], "Cards with"@, seq![], 0)) by { reveal_with_fuel(crate::text::witnessed, 2); }
    crate::text::lemma_witnessed_none(seq!['.', ' ', '\u{a4}', '(', 'I', ')', '.', ' '], "Cards with"@, seq![], 0);
    assert(digit_free("Cards with"@));
    crate::text::lemma_replace_framed(x, seq!['.', ' ', '\u{a4}', '(', 'I', ')', '.', ' '], y, "Cards with"@, "Cards with"@);
    assert(with_marker(WithPhrase::Cards) == "Cards with"@);
    assert(crate::text::witnessed(seq!['.', ' ', '\u{a4}', '(', 'I', ')', '.', ' '], "cards with"@, seq![], 0)) by { reveal_with_fuel(crate::text::witnessed, 2); }
    crate::text::lemma_witnessed_none(seq!['.', ' ', '\u{a4}', '(', 'I', ')', '.', ' '], "cards with"@, seq![], 0);
    assert(digit_free("cards with"@));
    crate::text::lemma_replace_framed(x, seq!['.', ' ', '\u{a4}', '(', 'I', ')', '.', ' '], y, "cards with"@, "cards with"@);
    assert(with_marker(WithPhrase::CardsLower) == "cards with"@);
}

/// What group 0 makes of the middle of phrase 30.
proof fn lemma_phrase_30_group_0()
    ensures
        phrase_group_0(seq![' ', 'I', ' ']) == seq![' ', 'I', ' '],
{
    reveal(phrase_group_0);
    reveal_strlit(" ");
    reveal_strlit("  ");
    reveal_strlit(" mana ");
    reveal_strlit(" ¤(mana) ");
    reveal_strlit("Boost");
    reveal_strlit("Experience");
    reveal_strlit("\n ");
    reveal_strlit("boost");
    reveal_strlit("experience");
    reveal_strlit("¤(Boost)");
    reveal_strlit("¤(Xp)");
    reveal_strlit("¤(boost)");
    reveal_strlit("¤(xp)");
    assert(crate::text::witnessed(seq![' ', 'I', ' '], "\n "@, seq![0, 0], 0)) by { reveal_with_fuel(crate::text::witnessed, 4); }
    crate::text::lemma_witnessed_none(seq![' ', 'I', ' '], "\n "@, seq![0, 0], 0);
    crate::text::lemma_replace_none(seq![' ', 'I', ' '], "\n "@, " "@);
    assert(crate::text::witnessed(seq![' ', 'I', ' '], "  "@, seq![1, 0], 0)) by { reveal_with_fuel(crate::text::witnessed, 4); }
    crate::text::lemma_witnessed_none(seq![' ', 'I', ' '], "  "@, seq![1, 0], 0);
    crate::text::lemma_replace_none(seq![' ', 'I', ' '], "  "@, " "@);
    assert(crate::text::witnessed(seq![' ', 'I', ' '], "Boost"@, seq![], 0)) by { reveal_with_fuel(crate::text::witnessed, 2); }
    crate::text::lemma_witnessed_none(seq![' ', 'I', ' '], "Boost"@, seq![], 0);
    crate::text::lemma_replace_none(seq![' ', 'I', ' '], "Boost"@, "¤(Boost)"@);
    assert(crate::text::witnessed(seq![' ', 'I', ' '], "boost"@, seq![], 0)) by { reveal_with_fuel(crate::text::witnessed, 2); }
    crate::text::lemma_witnessed_none(seq![' ', 'I', ' '], "boost"@, seq![], 0);
    crate::text::lemma_replace_none(seq![' ', 'I', ' '], "boost"@, "¤(boost)"@);
    assert(crate::text::witnessed(seq![' ', 'I', ' '], "experience"@, seq![], 0)) by { reveal_with_fuel(crate::text::witnessed, 2); }
    crate::text::lemma_witnessed_none(seq![' ', 'I', ' '], "experience"@, seq![], 0);
    crate::text::lemma_replace_none(seq![' ', 'I', ' '], "experience"@, "¤(xp)"@);
    assert(crate::text::witnessed(seq![' ', 'I', ' '], "Experience"@, seq![], 0)) by { reveal_with_fuel(crate::text::witnessed, 2); }
    crate::text::lemma_witnessed_none(seq![' ', 'I', ' '], "Experience"@, seq![], 0);
    crate::text::lemma_replace_none(seq![' ', 'I', ' '], "Experience"@, "¤(Xp)"@);
    assert(crate::text::witnessed(seq![' ', 'I', ' '], " mana "@, seq![], 0)) by { reveal_with_fuel(crate::text::witnessed, 2); }
    crate::text::lemma_witnessed_none(seq![' ', 'I', ' '], " mana "@, seq![], 0);
    crate::text::lemma_replace_none(seq![' ', 'I', ' '], " mana "@, " ¤(mana) "@);
}

/// What group 1 makes of the middle of phrase 30.
proof fn lemma_phrase_30_group_1()
    ensures
        phrase_group_1(seq![' ', 'I', ' ']) == seq![' ', 'I', ' '],
{
    reveal(phrase_group_1);
    reveal_strlit(" Mana ");
    reveal_strlit(" Mana,");
    reveal_strlit(" Mana.");
    reveal_strlit(" mana,");
    reveal_strlit(" mana.");
    reveal_strlit(" ¤(Mana) ");
    reveal_strlit(" ¤(Mana),");
    reveal_strlit(" ¤(Mana).");
    reveal_strlit(" ¤(mana),");
    reveal_strlit(" ¤(mana).");
    reveal_strlit("I am");
    reveal_strlit("I'm");
    reveal_strlit("I’m");
    assert(crate::text::witnessed(seq![' ', 'I', ' '], " mana."@, seq![], 0)) by { reveal_with_fuel(crate::text::witnessed, 2); }
    crate::text::lemma_witnessed_none(seq![' ', 'I', ' '], " mana."@, seq![], 0);
    crate::text::lemma_replace_none(seq![' ', 'I', ' '], " mana."@, " ¤(mana)."@);
    assert(crate::text::witnessed(seq![' ', 'I', ' '], " mana,"@, seq![], 0)) by { reveal_with_fuel(crate::text::witnessed, 2); }
    crate::text::lemma_witnessed_none(seq![' ', 'I', ' '], " mana,"@, seq![], 0);
    crate::text::lemma_replace_none(seq![' ', 'I', ' '], " mana,"@, " ¤(mana),"@);
    assert(crate::text::witnessed(seq![' ', 'I', ' '], " Mana "@, seq![], 0)) by { reveal_with_fuel(crate::text::witnessed, 2); }
    crate::text::lemma_witnessed_none(seq![' ', 'I', ' '], " Mana "@, seq![], 0);
    crate::text::lemma_replace_none(seq![' ', 'I', ' '], " Mana "@, " ¤(Mana) "@);
    assert(crate::text::witnessed(seq![' ', 'I', ' '], " Mana."@, seq![], 0)) by { reveal_with_fuel(crate::text::witnessed, 2); }
    crate::text::lemma_witnessed_none(seq![' ', 'I', ' '], " Mana."@, seq![], 0);
    crate::text::lemma_replace_none(seq![' ', 'I', ' '], " Mana."@, " ¤(Mana)."@);
    assert(crate::text::witnessed(seq![' ', 'I', ' '], " Mana,"@, seq![], 0)) by { reveal_with_fuel(crate::text::witnessed, 2); }
    crate::text::lemma_witnessed_none(seq![' ', 'I', ' '], " Mana,"@, seq![], 0);
    crate::text::lemma_replace_none(seq![' ', 'I', ' '], " Mana,"@, " ¤(Mana),"@);
    assert(crate::text::witnessed(seq![' ', 'I', ' '], "I’m"@, seq![0], 0)) by { reveal_with_fuel(crate::text::witnessed, 3); }
    crate::text::lemma_witnessed_none(seq![' ', 'I', ' '], "I’m"@, seq![0], 0);
    crate::text::lemma_replace_none(seq![' ', 'I', ' '], "I’m"@, "I am"@);
    assert(crate::text::witnessed(seq![' ', 'I', ' '], "I'm"@, seq![0], 0)) by { reveal_with_fuel(crate::text::witnessed, 3); }
    crate::text::lemma_witnessed_none(seq![' ', 'I', ' '], "I'm"@, seq![0], 0);
    crate::text::lemma_replace_none(seq![' ', 'I', ' '], "I'm"@, "I am"@);
}

/// What group 2 makes of the middle of phrase 30.
proof fn lemma_phrase_30_group_2()
    ensures
        phrase_group_2(seq![' ', 'I', ' ']) == seq![' ', 'I', ' '],
{
    reveal(phrase_group_2);
    reveal_strlit(" I am ");
    reveal_strlit(" I have");
    reveal_strlit(" me ");
    reveal_strlit(" my ");
    reveal_strlit(" ¤(I have)");
    reveal_strlit(" ¤(i am) ");
    reveal_strlit(" ¤(i have)");
    reveal_strlit(" ¤(me) ");
    reveal_strlit(" ¤(my) ");
    reveal_strlit(". I am ");
    reveal_strlit(". I have");
    reveal_strlit(". My ");
    reveal_strlit(". ¤(I am) ");
    reveal_strlit(". ¤(My) ");
    assert(crate::text::witnessed(seq![' ', 'I', ' '], ". I am "@, seq![], 0)) by { reveal_with_fuel(crate::text::witnessed, 2); }
    crate::text::lemma_witnessed_none(seq![' ', 'I', ' '], ". I am "@, seq![], 0);
    crate::text::lemma_replace_none(seq![' ', 'I', ' '], ". I am "@, ". ¤(I am) "@);
    assert(crate::text::witnessed(seq![' ', 'I', ' '], " I am "@, seq![], 0)) by { reveal_with_fuel(crate::text::witnessed, 2); }
    crate::text::lemma_witnessed_none(seq![' ', 'I', ' '], " I am "@, seq![], 0);
    crate::text::lemma_replace_none(seq![' ', 'I', ' '], " I am "@, " ¤(i am) "@);
    assert(crate::text::witnessed(seq![' ', 'I', ' '], " I have"@, seq![], 0)) by { reveal_with_fuel(crate::text::witnessed, 2); }
    crate::text::lemma_witnessed_none(seq![' ', 'I', ' '], " I have"@, seq![], 0);
    crate::text::lemma_replace_none(seq![' ', 'I', ' '], " I have"@, " ¤(i have)"@);
    assert(crate::text::witnessed(seq![' ', 'I', ' '], ". I have"@, seq![], 0)) by { reveal_with_fuel(crate::text::witnessed, 2); }
    crate::text::lemma_witnessed_none(seq![' ', 'I', ' '], ". I have"@, seq![], 0);
    crate::text::lemma_replace_none(seq![' ', 'I', ' '], ". I have"@, " ¤(I have)"@);
    assert(crate::text::witnessed(seq![' ', 'I', ' '], " my "@, seq![], 0)) by { reveal_with_fuel(crate::text::witnessed, 2); }
    crate::text::lemma_witnessed_none(seq![' ', 'I', ' '], " my "@, seq![], 0);
    crate::text::lemma_replace_none(seq![' ', 'I', ' '], " my "@, " ¤(my) "@);
    assert(crate::text::witnessed(seq![' ', 'I', ' '], ". My "@, seq![], 0)) by { reveal_with_fuel(crate::text::witnessed, 2); }
    crate::text::lemma_witnessed_none(seq![' ', 'I', ' '], ". My "@, seq![], 0);
    crate::text::lemma_replace_none(seq![' ', 'I', ' '], ". My "@, ". ¤(My) "@);
    assert(crate::text::witnessed(seq![' ', 'I', ' '], " me "@, seq![], 0)) by { reveal_with_fuel(crate::text::witnessed, 2); }
    crate::text::lemma_witnessed_none(seq![' ', 'I', ' '], " me "@, seq![], 0);
    crate::text::lemma_replace_none(seq![' ', 'I', ' '], " me "@, " ¤(me) "@);
}

/// What group 3 makes of the middle of phrase 30.
proof fn lemma_phrase_30_group_3()
    ensures
        phrase_group_3(seq![' ', 'I', ' ']) == seq![' ', 'I', ' '],
{
    reveal(phrase_group_3);
    reveal_strlit(" Me ");
    reveal_strlit(" Me,");
    reveal_strlit(" Me.");
    reveal_strlit(" me,");
    reveal_strlit(" me.");
    reveal_strlit(" ¤(Me) ");
    reveal_strlit(" ¤(Me),");
    reveal_strlit(" ¤(Me).");
    reveal_strlit(" ¤(me),");
    reveal_strlit(" ¤(me).");
    reveal_strlit(". I ");
    reveal_strlit(". ¤(I) ");
    reveal_strlit("\nI ");
    reveal_strlit("\n¤(I) ");
    assert(crate::text::witnessed(seq![' ', 'I', ' '], " me,"@, seq![], 0)) by { reveal_with_fuel(crate::text::witnessed, 2); }
    crate::text::lemma_witnessed_none(seq![' ', 'I', ' '], " me,"@, seq![], 0);
    crate::text::lemma_replace_none(seq![' ', 'I', ' '], " me,"@, " ¤(me),"@);
    assert(crate::text::witnessed(seq![' ', 'I', ' '], " me."@, seq![], 0)) by { reveal_with_fuel(crate::text::witnessed, 2); }
    crate::text::lemma_witnessed_none(seq![' ', 'I', ' '], " me."@, seq![], 0);
    crate::text::lemma_replace_none(seq![' ', 'I', ' '], " me."@, " ¤(me)."@);
    assert(crate::text::witnessed(seq![' ', 'I', ' '], " Me "@, seq![], 0)) by { reveal_with_fuel(crate::text::witnessed, 2); }
    crate::text::lemma_witnessed_none(seq![' ', 'I', ' '], " Me "@, seq![], 0);
    crate::text::lemma_replace_none(seq![' ', 'I', ' '], " Me "@, " ¤(Me) "@);
    assert(crate::text::witnessed(seq![' ', 'I', ' '], " Me,"@, seq![], 0)) by { reveal_with_fuel(crate::text::witnessed, 2); }
    crate::text::lemma_witnessed_none(seq![' ', 'I', ' '], " Me,"@, seq![], 0);
    crate::text::lemma_replace_none(seq![' ', 'I', ' '], " Me,"@, " ¤(Me),"@);
    assert(crate::text::witnessed(seq![' ', 'I', ' '], " Me."@, seq![], 0)) by { reveal_with_fuel(crate::text::witnessed, 2); }
    crate::text::lemma_witnessed_none(seq![' ', 'I', ' '], " Me."@, seq![], 0);
    crate::text::lemma_replace_none(seq![' ', 'I', ' '], " Me."@, " ¤(Me)."@);
    assert(crate::text::witnessed(seq![' ', 'I', ' '], "\nI "@, seq![0], 0)) by { reveal_with_fuel(crate::text::witnessed, 3); }
    crate::text::lemma_witnessed_none(seq![' ', 'I', ' '], "\nI "@, seq![0], 0);
    crate::text::lemma_replace_none(seq![' ', 'I', ' '], "\nI "@, "\n¤(I) "@);
    assert(crate::text::witnessed(seq![' ', 'I', ' '], ". I "@, seq![], 0)) by { reveal_with_fuel(crate::text::witnessed, 2); }
    crate::text::lemma_witnessed_none(seq![' ', 'I', ' '], ". I "@, seq![], 0);
    crate::text::lemma_replace_none(seq![' ', 'I', ' '], ". I "@, ". ¤(I) "@);
}

/// What group 4 makes of the middle of phrase 30.
proof fn lemma_phrase_30_group_4()
    ensures
        phrase_group_4(seq![' ', 'I', ' ']) == seq![' ', '\u{a4}', '(', 'i', ')', ' '],
{
    reveal(phrase_group_4);
    reveal_strlit(" I ");
    reveal_strlit(" I,");
    reveal_strlit(" I.");
    reveal_strlit(" ¤(i) ");
    reveal_strlit(" ¤(i),");
    reveal_strlit(" ¤(i).");
    reveal_strlit(". I,");
    reveal_strlit(". I.");
    reveal_strlit(". ¤(I),");
    reveal_strlit(". ¤(I). ");
    reveal_strlit("Cards ¤(I am) attached to");
    reveal_strlit("The card ¤(I am) attached to");
    reveal_strlit("cards ¤(I am) attached to");
    reveal_strlit("the card ¤(I am) attached to");
    assert(crate::text::witnessed(seq![' ', 'I', ' '], ". I,"@, seq![], 0)) by { reveal_with_fuel(crate::text::witnessed, 2); }
    crate::text::lemma_witnessed_none(seq![' ', 'I', ' '], ". I,"@, seq![], 0);
    crate::text::lemma_replace_none(seq![' ', 'I', ' '], ". I,"@, ". ¤(I),"@);
    assert(crate::text::witnessed(seq![' ', 'I', ' '], ". I."@, seq![], 0)) by { reveal_with_fuel(crate::text::witnessed, 2); }
    crate::text::lemma_witnessed_none(seq![' ', 'I', ' '], ". I."@, seq![], 0);
    crate::text::lemma_replace_none(seq![' ', 'I', ' '], ". I."@, ". ¤(I). "@);
    assert(crate::text::witnessed_until(seq![' ', 'I', ' '], " I "@, seq![], 0, 0)) by { reveal_with_fuel(crate::text::witnessed_until, 2); }
    assert(crate::text::witnessed(seq![' ', 'I', ' '], " I "@, seq![0, 0, 0], 3)) by { reveal_with_fuel(crate::text::witnessed, 5); }
    assert(seq![' ', 'I', ' '].subrange(0, 3) =~= " I "@);
    crate::text::lemma_replace_once(seq![' ', 'I', ' '], " I "@, " ¤(i) "@, 0, seq![], seq![0, 0, 0]);
    assert(seq![' ', 'I', ' '].subrange(0, 0) + " ¤(i) "@ + seq![' ', 'I', ' '].subrange(3, 3) =~= seq![' ', '\u{a4}', '(', 'i', ')', ' ']);
    assert(crate::text::witnessed(seq![' ', '\u{a4}', '(', 'i', ')', ' '], " I,"@, seq![1, 0, 0, 0], 0)) by { reveal_with_fuel(crate::text::witnessed, 6); }
    crate::text::lemma_witnessed_none(seq![' ', '\u{a4}', '(', 'i', ')', ' '], " I,"@, seq![1, 0, 0, 0], 0);
    crate::text::lemma_replace_none(seq![' ', '\u{a4}', '(', 'i', ')', ' '], " I,"@, " ¤(i),"@);
    assert(crate::text::witnessed(seq![' ', '\u{a4}', '(', 'i', ')', ' '], " I."@, seq![1, 0, 0, 0], 0)) by { reveal_with_fuel(crate::text::witnessed, 6); }
    crate::text::lemma_witnessed_none(seq![' ', '\u{a4}', '(', 'i', ')', ' '], " I."@, seq![1, 0, 0, 0], 0);
    crate::text::lemma_replace_none(seq![' ', '\u{a4}', '(', 'i', ')', ' '], " I."@, " ¤(i)."@);
    assert(crate::text::witnessed(seq![' ', '\u{a4}', '(', 'i', ')', ' '], "Cards ¤(I am) attached to"@, seq![], 0)) by { reveal_with_fuel(crate::text::witnessed, 2); }
    crate::text::lemma_witnessed_none(seq![' ', '\u{a4}', '(', 'i', ')', ' '], "Cards ¤(I am) attached to"@, seq![], 0);
    crate::text::lemma_replace_none(seq![' ', '\u{a4}', '(', 'i', ')', ' '], "Cards ¤(I am) attached to"@, "The card ¤(I am) attached to"@);
    assert(crate::text::witnessed(seq![' ', '\u{a4}', '(', 'i', ')', ' '], "cards ¤(I am) attached to"@, seq![], 0)) by { reveal_with_fuel(crate::text::witnessed, 2); }
    crate::text::lemma_witnessed_none(seq![' ', '\u{a4}', '(', 'i', ')', ' '], "cards ¤(I am) attached to"@, seq![], 0);
    crate::text::lemma_replace_none(seq![' ', '\u{a4}', '(', 'i', ')', ' '], "cards ¤(I am) attached to"@, "the card ¤(I am) attached to"@);
}

/// Between digits, phrase 30 becomes what the card text makes of it.
proof fn lemma_phrase_30(x: Seq<char>, y: Seq<char>)
    requires
        all_digits(x),
        all_digits(y),
        trim(x + " I "@ + y) == x + " I "@ + y,
    ensures
        phrase_commands(x + " I "@ + y) == Some(x + seq![' ', '\u{a4}', '(', 'i', ')', ' '] + y),
{
    reveal_strlit(" I ");
    assert(" I "@ =~= seq![' ', 'I', ' ']);
    reveal_strlit("Card with");
    reveal_strlit("card with");
    reveal_strlit("Cards with");
    reveal_strlit("cards with");
    let m0 = seq![' ', 'I', ' '];
    lemma_group_framed_0(x, m0, y);
    lemma_phrase_30_group_0();
    let m1 = phrase_group_0(m0);
    lemma_group_framed_1(x, m1, y);
    lemma_phrase_30_group_1();
    let m2 = phrase_group_1(m1);
    lemma_group_framed_2(x, m2, y);
    lemma_phrase_30_group_2();
    let m3 = phrase_group_2(m2);
    lemma_group_framed_3(x, m3, y);
    lemma_phrase_30_group_3();
    let m4 = phrase_group_3(m3);
    lemma_group_framed_4(x, m4, y);
    lemma_phrase_30_group_4();
    let m5 = phrase_group_4(m4);
    assert(crate::text::witnessed(seq![' ', '\u{a4}', '(', 'i', ')', ' '], "Card with"@, seq![], 0)) by { reveal_with_fuel(crate::text::witnessed, 2); }
    crate::text::lemma_witnessed_none(seq![' ', '\u{a4}', '(', 'i', ')', ' '], "Card with"@, seq![], 0);
    assert(digit_free("Card with"@));
    crate::text::lemma_replace_framed(x, seq![' ', '\u{a4}', '(', 'i', ')', ' '], y, "Card with"@, "Card with"@);
    assert(with_marker(WithPhrase::Card) == "Card with"@);
    assert(crate::text::witnessed(seq![' ', '\u{a4}', '(', 'i', ')', ' '], "card with"@, seq![], 0)) by { reveal_with_fuel(crate::text::witnessed, 2); }
    crate::text::lemma_witnessed_none(seq![' ', '\u{a4}', '(', 'i', ')', ' '], "card with"@, seq![], 0);
    assert(digit_free("card with"@));
    crate::text::lemma_replace_framed(x, seq![' ', '\u{a4}', '(', 'i', ')', ' '], y, "card with"@, "card with"@);
    assert(with_marker(WithPhrase::CardLower) == "card with"@);
    assert(crate::text::witnessed(seq![' ', '\u{a4}', '(', 'i', ')', ' '], "Cards with"@, seq![], 0)) by { reveal_with_fuel(crate::text::witnessed, 2); }
    crate::text::lemma_witnessed_none(seq![' ', '\u{a4}', '(', 'i', ')', ' '], "Cards with"@, seq![], 0);
    assert(digit_free("Cards with"@));
    crate::text::lemma_replace_framed(x, seq![' ', '\u{a4}', '(', 'i', ')', ' '], y, "Cards with"@, "Cards with"@);
    assert(with_marker(WithPhrase::Cards) == "Cards with"@);
    assert(crate::text::witnessed(seq![' ', '\u{a4}', '(', 'i', ')', ' '], "cards with"@, seq![], 0)) by { reveal_with_fuel(crate::text::witnessed, 2); }
    crate::text::lemma_witnessed_none(seq![' ', '\u{a4}', '(', 'i', ')', ' '], "cards with"@, seq![], 0);
    assert(digit_free("cards with"@));
    crate::text::lemma_replace_framed(x, seq![' ', '\u{a4}', '(', 'i', ')', ' '], y, "cards with"@, "cards with"@);
    assert(with_marker(WithPhrase::CardsLower) == "cards with"@);
}

/// What group 0 makes of the middle of phrase 31.
proof fn lemma_phrase_31_group_0()
    ensures
        phrase_group_0(seq![' ', 'I', ',']) == seq![' ', 'I', ','],
{
    reveal(phrase_group_0);
    reveal_strlit(" ");
    reveal_strlit("  ");
    reveal_strlit(" mana ");
    reveal_strlit(" ¤(mana) ");
    reveal_strlit("Boost");
    reveal_strlit("Experience");
    reveal_strlit("\n ");
    reveal_strlit("boost");
    reveal_strlit("experience");
    reveal_strlit("¤(Boost)");
    reveal_strlit("¤(Xp)");
    reveal_strlit("¤(boost)");
    reveal_strlit("¤(xp)");
    assert(crate::text::witnessed(seq![' ', 'I', ','], "\n "@, seq![0, 0], 0)) by { reveal_with_fuel(crate::text::witnessed, 4); }
    crate::text::lemma_witnessed_none(seq![' ', 'I', ','], "\n "@, seq![0, 0], 0);
    crate::text::lemma_replace_none(seq![' ', 'I', ','], "\n "@, " "@);
    assert(crate::text::witnessed(seq![' ', 'I', ','], "  "@, seq![1, 0], 0)) by { reveal_with_fuel(crate::text::witnessed, 4); }
    crate::text::lemma_witnessed_none(seq![' ', 'I', ','], "  "@, seq![1, 0], 0);
    crate::text::lemma_replace_none(seq![' ', 'I', ','], "  "@, " "@);
    assert(crate::text::witnessed(seq![' ', 'I', ','], "Boost"@, seq![], 0)) by { reveal_with_fuel(crate::text::witnessed, 2); }
    crate::text::lemma_witnessed_none(seq![' ', 'I', ','], "Boost"@, seq![], 0);
    crate::text::lemma_replace_none(seq![' ', 'I', ','], "Boost"@, "¤(Boost)"@);
    assert(crate::text::witnessed(seq![' ', 'I', ','], "boost"@, seq![], 0)) by { reveal_with_fuel(crate::text::witnessed, 2); }
    crate::text::lemma_witnessed_none(seq![' ', 'I', ','], "boost"@, seq![], 0);
    crate::text::lemma_replace_none(seq![' ', 'I', ','], "boost"@, "¤(boost)"@);
    assert(crate::text::witnessed(seq![' ', 'I', ','], "experience"@, seq![], 0)) by { reveal_with_fuel(crate::text::witnessed, 2); }
    crate::text::lemma_witnessed_none(seq![' ', 'I', ','], "experience"@, seq![], 0);
    crate::text::lemma_replace_none(seq![' ', 'I', ','], "experience"@, "¤(xp)"@);
    assert(crate::text::witnessed(seq![' ', 'I', ','], "Experience"@, seq![], 0)) by { reveal_with_fuel(crate::text::witnessed, 2); }
    crate::text::lemma_witnessed_none(seq![' ', 'I', ','], "Experience"@, seq![], 0);
    crate::text::lemma_replace_none(seq![' ', 'I', ','], "Experience"@, "¤(Xp)"@);
    assert(crate::text::witnessed(seq![' ', 'I', ','], " mana "@, seq![], 0)) by { reveal_with_fuel(crate::text::witnessed, 2); }
    crate::text::lemma_witnessed_none(seq![' ', 'I', ','], " mana "@, seq![], 0);
    crate::text::lemma_replace_none(seq![' ', 'I', ','], " mana "@, " ¤(mana) "@);
}

/// What group 1 makes of the middle of phrase 31.
proof fn lemma_phrase_31_group_1()
    ensures
        phrase_group_1(seq![' ', 'I', ',']) == seq![' ', 'I', ','],
{
    reveal(phrase_group_1);
    reveal_strlit(" Mana ");
    reveal_strlit(" Mana,");
    reveal_strlit(" Mana.");
    reveal_strlit(" mana,");
    reveal_strlit(" mana.");
    reveal_strlit(" ¤(Mana) ");
    reveal_strlit(" ¤(Mana),");
    reveal_strlit(" ¤(Mana).");
    reveal_strlit(" ¤(mana),");
    reveal_strlit(" ¤(mana).");
    reveal_strlit("I am");
    reveal_strlit("I'm");
    reveal_strlit("I’m");
    assert(crate::text::witnessed(seq![' ', 'I', ','], " mana."@, seq![], 0)) by { reveal_with_fuel(crate::text::witnessed, 2); }
    crate::text::lemma_witnessed_none(seq![' ', 'I', ','], " mana."@, seq![], 0);
    crate::text::lemma_replace_none(seq![' ', 'I', ','], " mana."@, " ¤(mana)."@);
    assert(crate::text::witnessed(seq![' ', 'I', ','], " mana,"@, seq![], 0)) by { reveal_with_fuel(crate::text::witnessed, 2); }
    crate::text::lemma_witnessed_none(seq![' ', 'I', ','], " mana,"@, seq![], 0);
    crate::text::lemma_replace_none(seq![' ', 'I', ','], " mana,"@, " ¤(mana),"@);
    assert(crate::text::witnessed(seq![' ', 'I', ','], " Mana "@, seq![], 0)) by { reveal_with_fuel(crate::text::witnessed, 2); }
    crate::text::lemma_witnessed_none(seq![' ', 'I', ','], " Mana "@, seq![], 0);
    crate::text::lemma_replace_none(seq![' ', 'I', ','], " Mana "@, " ¤(Mana) "@);
    assert(crate::text::witnessed(seq![' ', 'I', ','], " Mana."@, seq![], 0)) by { reveal_with_fuel(crate::text::witnessed, 2); }
    crate::text::lemma_witnessed_none(seq![' ', 'I', ','], " Mana."@, seq![], 0);
    crate::text::lemma_replace_none(seq![' ', 'I', ','], " Mana."@, " ¤(Mana)."@);
    assert(crate::text::witnessed(seq![' ', 'I', ','], " Mana,"@, seq![], 0)) by { reveal_with_fuel(crate::text::witnessed, 2); }
    crate::text::lemma_witnessed_none(seq![' ', 'I', ','], " Mana,"@, seq![], 0);
    crate::text::lemma_replace_none(seq![' ', 'I', ','], " Mana,"@, " ¤(Mana),"@);
    assert(crate::text::witnessed(seq![' ', 'I', ','], "I’m"@, seq![0], 0)) by { reveal_with_fuel(crate::text::witnessed, 3); }
    crate::text::lemma_witnessed_none(seq![' ', 'I', ','], "I’m"@, seq![0], 0);
    crate::text::lemma_replace_none(seq![' ', 'I', ','], "I’m"@, "I am"@);
    assert(crate::text::witnessed(seq![' ', 'I', ','], "I'm"@, seq![0], 0)) by { reveal_with_fuel(crate::text::witnessed, 3); }
    crate::text::lemma_witnessed_none(seq![' ', 'I', ','], "I'm"@, seq![0], 0);
    crate::text::lemma_replace_none(seq![' ', 'I', ','], "I'm"@, "I am"@);
}

/// What group 2 makes of the middle of phrase 31.
proof fn lemma_phrase_31_group_2()
    ensures
        phrase_group_2(seq![' ', 'I', ',']) == seq![' ', 'I', ','],
{
    reveal(phrase_group_2);
    reveal_strlit(" I am ");
    reveal_strlit(" I have");
    reveal_strlit(" me ");
    reveal_strlit(" my ");
    reveal_strlit(" ¤(I have)");
    reveal_strlit(" ¤(i am) ");
    reveal_strlit(" ¤(i have)");
    reveal_strlit(" ¤(me) ");
    reveal_strlit(" ¤(my) ");
    reveal_strlit(". I am ");
    reveal_strlit(". I have");
    reveal_strlit(". My ");
    reveal_strlit(". ¤(I am) ");
    reveal_strlit(". ¤(My) ");
    assert(crate::text::witnessed(seq![' ', 'I', ','], ". I am "@, seq![], 0)) by { reveal_with_fuel(crate::text::witnessed, 2); }
    crate::text::lemma_witnessed_none(seq![' ', 'I', ','], ". I am "@, seq![], 0);
    crate::text::lemma_replace_none(seq![' ', 'I', ','], ". I am "@, ". ¤(I am) "@);
    assert(crate::text::witnessed(seq![' ', 'I', ','], " I am "@, seq![], 0)) by { reveal_with_fuel(crate::text::witnessed, 2); }
    crate::text::lemma_witnessed_none(seq![' ', 'I', ','], " I am "@, seq![], 0);
    crate::text::lemma_replace_none(seq![' ', 'I', ','], " I am "@, " ¤(i am) "@);
    assert(crate::text::witnessed(seq![' ', 'I', ','], " I have"@, seq![], 0)) by { reveal_with_fuel(crate::text::witnessed, 2); }
    crate::text::lemma_witnessed_none(seq![' ', 'I', ','], " I have"@, seq![], 0);
    crate::text::lemma_replace_none(seq![' ', 'I', ','], " I have"@, " ¤(i have)"@);
    assert(crate::text::witnessed(seq![' ', 'I', ','], ". I have"@, seq![], 0)) by { reveal_with_fuel(crate::text::witnessed, 2); }
    crate::text::lemma_witnessed_none(seq![' ', 'I', ','], ". I have"@, seq![], 0);
    crate::text::lemma_replace_none(seq![' ', 'I', ','], ". I have"@, " ¤(I have)"@);
    assert(crate::text::witnessed(seq![' ', 'I', ','], " my "@, seq![], 0)) by { reveal_with_fuel(crate::text::witnessed, 2); }
    crate::text::lemma_witnessed_none(seq![' ', 'I', ','], " my "@, seq![], 0);
    crate::text::lemma_replace_none(seq![' ', 'I', ','], " my "@, " ¤(my) "@);
    assert(crate::text::witnessed(seq![' ', 'I', ','], ". My "@, seq![], 0)) by { reveal_with_fuel(crate::text::witnessed, 2); }
    crate::text::lemma_witnessed_none(seq![' ', 'I', ','], ". My "@, seq![], 0);
    crate::text::lemma_replace_none(seq![' ', 'I', ','], ". My "@, ". ¤(My) "@);
    assert(crate::text::witnessed(seq![' ', 'I', ','], " me "@, seq![], 0)) by { reveal_with_fuel(crate::text::witnessed, 2); }
    crate::text::lemma_witnessed_none(seq![' ', 'I', ','], " me "@, seq![], 0);
    crate::text::lemma_replace_none(seq![' ', 'I', ','], " me "@, " ¤(me) "@);
}

/// What group 3 makes of the middle of phrase 31.
proof fn lemma_phrase_31_group_3()
    ensures
        phrase_group_3(seq![' ', 'I', ',']) == seq![' ', 'I', ','],
{
    reveal(phrase_group_3);
    reveal_strlit(" Me ");
    reveal_strlit(" Me,");
    reveal_strlit(" Me.");
    reveal_strlit(" me,");
    reveal_strlit(" me.");
    reveal_strlit(" ¤(Me) ");
    reveal_strlit(" ¤(Me),");
    reveal_strlit(" ¤(Me).");
    reveal_strlit(" ¤(me),");
    reveal_strlit(" ¤(me).");
    reveal_strlit(". I ");
    reveal_strlit(". ¤(I) ");
    reveal_strlit("\nI ");
    reveal_strlit("\n¤(I) ");
    assert(crate::text::witnessed(seq![' ', 'I', ','], " me,"@, seq![], 0)) by { reveal_with_fuel(crate::text::witnessed, 2); }
    crate::text::lemma_witnessed_none(seq![' ', 'I', ','], " me,"@, seq![], 0);
    crate::text::lemma_replace_none(seq![' ', 'I', ','], " me,"@, " ¤(me),"@);
    assert(crate::text::witnessed(seq![' ', 'I', ','], " me."@, seq![], 0)) by { reveal_with_fuel(crate::text::witnessed, 2); }
    crate::text::lemma_witnessed_none(seq![' ', 'I', ','], " me."@, seq![], 0);
    crate::text::lemma_replace_none(seq![' ', 'I', ','], " me."@, " ¤(me)."@);
    assert(crate::text::witnessed(seq![' ', 'I', ','], " Me "@, seq![], 0)) by { reveal_with_fuel(crate::text::witnessed, 2); }
    crate::text::lemma_witnessed_none(seq![' ', 'I', ','], " Me "@, seq![], 0);
    crate::text::lemma_replace_none(seq![' ', 'I', ','], " Me "@, " ¤(Me) "@);
    assert(crate::text::witnessed(seq![' ', 'I', ','], " Me,"@, seq![], 0)) by { reveal_with_fuel(crate::text::witnessed, 2); }
    crate::text::lemma_witnessed_none(seq![' ', 'I', ','], " Me,"@, seq![], 0);
    crate::text::lemma_replace_none(seq![' ', 'I', ','], " Me,"@, " ¤(Me),"@);
    assert(crate::text::witnessed(seq![' ', 'I', ','], " Me."@, seq![], 0)) by { reveal_with_fuel(crate::text::witnessed, 2); }
    crate::text::lemma_witnessed_none(seq![' ', 'I', ','], " Me."@, seq![], 0);
    crate::text::lemma_replace_none(seq![' ', 'I', ','], " Me."@, " ¤(Me)."@);
    assert(crate::text::witnessed(seq![' ', 'I', ','], "\nI "@, seq![0], 0)) by { reveal_with_fuel(crate::text::witnessed, 3); }
    crate::text::lemma_witnessed_none(seq![' ', 'I', ','], "\nI "@, seq![0], 0);
    crate::text::lemma_replace_none(seq![' ', 'I', ','], "\nI "@, "\n¤(I) "@);
    assert(crate::text::witnessed(seq![' ', 'I', ','], ". I "@, seq![], 0)) by { reveal_with_fuel(crate::text::witnessed, 2); }
    crate::text::lemma_witnessed_none(seq![' ', 'I', ','], ". I "@, seq![], 0);
    crate::text::lemma_replace_none(seq![' ', 'I', ','], ". I "@, ". ¤(I) "@);
}

/// What group 4 makes of the middle of phrase 31.
proof fn lemma_phrase_31_group_4()
    ensures
        phrase_group_4(seq![' ', 'I', ',']) == seq![' ', '\u{a4}', '(', 'i', ')', ','],
{
    reveal(phrase_group_4);
    reveal_strlit(" I ");
    reveal_strlit(" I,");
    reveal_strlit(" I.");
    reveal_strlit(" ¤(i) ");
    reveal_strlit(" ¤(i),");
    reveal_strlit(" ¤(i).");
    reveal_strlit(". I,");
    reveal_strlit(". I.");
    reveal_strlit(". ¤(I),");
    reveal_strlit(". ¤(I). ");
    reveal_strlit("Cards ¤(I am) attached to");
    reveal_strlit("The card ¤(I am) attached to");
    reveal_strlit("cards ¤(I am) attached to");
    reveal_strlit("the card ¤(I am) attached to");
    assert(crate::text::witnessed(seq![' ', 'I', ','], ". I,"@, seq![], 0)) by { reveal_with_fuel(crate::text::witnessed, 2); }
    crate::text::lemma_witnessed_none(seq![' ', 'I', ','], ". I,"@, seq![], 0);
    crate::text::lemma_replace_none(seq![' ', 'I', ','], ". I,"@, ". ¤(I),"@);
    assert(crate::text::witnessed(seq![' ', 'I', ','], ". I."@, seq![], 0)) by { reveal_with_fuel(crate::text::witnessed, 2); }
    crate::text::lemma_witnessed_none(seq![' ', 'I', ','], ". I."@, seq![], 0);
    crate::text::lemma_replace_none(seq![' ', 'I', ','], ". I."@, ". ¤(I). "@);
    assert(crate::text::witnessed(seq![' ', 'I', ','], " I "@, seq![2], 0)) by { reveal_with_fuel(crate::text::witnessed, 3); }
    crate::text::lemma_witnessed_none(seq![' ', 'I', ','], " I "@, seq![2], 0);
    crate::text::lemma_replace_none(seq![' ', 'I', ','], " I "@, " ¤(i) "@);
    assert(crate::text::witnessed_until(seq![' ', 'I', ','], " I,"@, seq![], 0, 0)) by { reveal_with_fuel(crate::text::witnessed_until, 2); }
    assert(crate::text::witnessed(seq![' ', 'I', ','], " I,"@, seq![0, 0, 0], 3)) by { reveal_with_fuel(crate::text::witnessed, 5); }
    assert(seq![' ', 'I', ','].subrange(0, 3) =~= " I,"@);
    crate::text::lemma_replace_once(seq![' ', 'I', ','], " I,"@, " ¤(i),"@, 0, seq![], seq![0, 0, 0]);
    assert(seq![' ', 'I', ','].subrange(0, 0) + " ¤(i),"@ + seq![' ', 'I', ','].subrange(3, 3) =~= seq![' ', '\u{a4}', '(', 'i', ')', ',']);
    assert(crate::text::witnessed(seq![' ', '\u{a4}', '(', 'i', ')', ','], " I."@, seq![1, 0, 0, 0], 0)) by { reveal_with_fuel(crate::text::witnessed, 6); }
    crate::text::lemma_witnessed_none(seq![' ', '\u{a4}', '(', 'i', ')', ','], " I."@, seq![1, 0, 0, 0], 0);
    crate::text::lemma_replace_none(seq![' ', '\u{a4}', '(', 'i', ')', ','], " I."@, " ¤(i)."@);
    assert(crate::text::witnessed(seq![' ', '\u{a4}', '(', 'i', ')', ','], "Cards ¤(I am) attached to"@, seq![], 0)) by { reveal_with_fuel(crate::text::witnessed, 2); }
    crate::text::lemma_witnessed_none(seq![' ', '\u{a4}', '(', 'i', ')', ','], "Cards ¤(I am) attached to"@, seq![], 0);
    crate::text::lemma_replace_none(seq![' ', '\u{a4}', '(', 'i', ')', ','], "Cards ¤(I am) attached to"@, "The card ¤(I am) attached to"@);
    assert(crate::text::witnessed(seq![' ', '\u{a4}', '(', 'i', ')', ','], "cards ¤(I am) attached to"@, seq![], 0)) by { reveal_with_fuel(crate::text::witnessed, 2); }
    crate::text::lemma_witnessed_none(seq![' ', '\u{a4}', '(', 'i', ')', ','], "cards ¤(I am) attached to"@, seq![], 0);
    crate::text::lemma_replace_none(seq![' ', '\u{a4}', '(', 'i', ')', ','], "cards ¤(I am) attached to"@, "the card ¤(I am) attached to"@);
}

/// Between digits, phrase 31 becomes what the card text makes of it.
proof fn lemma_phrase_31(x: Seq<char>, y: Seq<char>)
    requires
        all_digits(x),
        all_digits(y),
        trim(x + " I,"@ + y) == x + " I,"@ + y,
    ensures
        phrase_commands(x + " I,"@ + y) == Some(x + seq![' ', '\u{a4}', '(', 'i', ')', ','] + y),
{
    reveal_strlit(" I,");
    assert(" I,"@ =~= seq![' ', 'I', ',']);
    reveal_strlit("Card with");
    reveal_strlit("card with");
    reveal_strlit("Cards with");
    reveal_strlit("cards with");
    let m0 = seq![' ', 'I', ','];
    lemma_group_framed_0(x, m0, y);
    lemma_phrase_31_group_0();
    let m1 = phrase_group_0(m0);
    lemma_group_framed_1(x, m1, y);
    lemma_phrase_31_group_1();
    let m2 = phrase_group_1(m1);
    lemma_group_framed_2(x, m2, y);
    lemma_phrase_31_group_2();
    let m3 = phrase_group_2(m2);
    lemma_group_framed_3(x, m3, y);
    lemma_phrase_31_group_3();
    let m4 = phrase_group_3(m3);
    lemma_group_framed_4(x, m4, y);
    lemma_phrase_31_group_4();
    let m5 = phrase_group_4(m4);
    assert(crate::text::witnessed(seq![' ', '\u{a4}', '(', 'i', ')', ','], "Card with"@, seq![], 0)) by { reveal_with_fuel(crate::text::witnessed, 2); }
    crate::text::lemma_witnessed_none(seq![' ', '\u{a4}', '(', 'i', ')', ','], "Card with"@, seq![], 0);
    assert(digit_free("Card with"@));
    crate::text::lemma_replace_framed(x, seq![' ', '\u{a4}', '(', 'i', ')', ','], y, "Card with"@, "Card with"@);
    assert(with_marker(WithPhrase::Card) == "Card with"@);
    assert(crate::text::witnessed(seq![' ', '\u{a4}', '(', 'i', ')', ','], "card with"@, seq![], 0)) by { reveal_with_fuel(crate::text::witnessed, 2); }
    crate::text::lemma_witnessed_none(seq![' ', '\u{a4}', '(', 'i', ')', ','], "card with"@, seq![], 0);
    assert(digit_free("card with"@));
    crate::text::lemma_replace_framed(x, seq![' ', '\u{a4}', '(', 'i', ')', ','], y, "card with"@, "card with"@);
    assert(with_marker(WithPhrase::CardLower) == "card with"@);
    assert(crate::text::witnessed(seq![' ', '\u{a4}', '(', 'i', ')', ','], "Cards with"@, seq![], 0)) by { reveal_with_fuel(crate::text::witnessed, 2); }
    crate::text::lemma_witnessed_none(seq![' ', '\u{a4}', '(', 'i', ')', ','], "Cards with"@, seq![], 0);
    assert(digit_free("Cards with"@));
    crate::text::lemma_replace_framed(x, seq![' ', '\u{a4}', '(', 'i', ')', ','], y, "Cards with"@, "Cards with"@);
    assert(with_marker(WithPhrase::Cards) == "Cards with"@);
    assert(crate::text::witnessed(seq![' ', '\u{a4}', '(', 'i', ')', ','], "cards with"@, seq![], 0)) by { reveal_with_fuel(crate::text::witnessed, 2); }
    crate::text::lemma_witnessed_none(seq![' ', '\u{a4}', '(', 'i', ')', ','], "cards with"@, seq![], 0);
    assert(digit_free("cards with"@));
    crate::text::lemma_replace_framed(x, seq![' ', '\u{a4}', '(', 'i', ')', ','], y, "cards with"@, "cards with"@);
    assert(with_marker(WithPhrase::CardsLower) == "cards with"@);
}

/// What group 0 makes of the middle of phrase 32.
proof fn lemma_phrase_32_group_0()
    ensures
        phrase_group_0(seq![' ', 'I', '.']) == seq![' ', 'I', '.'],
{
    reveal(phrase_group_0);
    reveal_strlit(" ");
    reveal_strlit("  ");
    reveal_strlit(" mana ");
    reveal_strlit(" ¤(mana) ");
    reveal_strlit("Boost");
    reveal_strlit("Experience");
    reveal_strlit("\n ");
    reveal_strlit("boost");
    reveal_strlit("experience");
    reveal_strlit("¤(Boost)");
    reveal_strlit("¤(Xp)");
    reveal_strlit("¤(boost)");
    reveal_strlit("¤(xp)");
    assert(crate::text::witnessed(seq![' ', 'I', '.'], "\n "@, seq![0, 0], 0)) by { reveal_with_fuel(crate::text::witnessed, 4); }
    crate::text::lemma_witnessed_none(seq![' ', 'I', '.'], "\n "@, seq![0, 0], 0);
    crate::text::lemma_replace_none(seq![' ', 'I', '.'], "\n "@, " "@);
    assert(crate::text::witnessed(seq![' ', 'I', '.'], "  "@, seq![1, 0], 0)) by { reveal_with_fuel(crate::text::witnessed, 4); }
    crate::text::lemma_witnessed_none(seq![' ', 'I', '.'], "  "@, seq![1, 0], 0);
    crate::text::lemma_replace_none(seq![' ', 'I', '.'], "  "@, " "@);
    assert(crate::text::witnessed(seq![' ', 'I', '.'], "Boost"@, seq![], 0)) by { reveal_with_fuel(crate::text::witnessed, 2); }
    crate::text::lemma_witnessed_none(seq![' ', 'I', '.'], "Boost"@, seq![], 0);
    crate::text::lemma_replace_none(seq![' ', 'I', '.'], "Boost"@, "¤(Boost)"@);
    assert(crate::text::witnessed(seq![' ', 'I', '.'], "boost"@, seq![], 0)) by { reveal_with_fuel(crate::text::witnessed, 2); }
    crate::text::lemma_witnessed_none(seq![' ', 'I', '.'], "boost"@, seq![], 0);
    crate::text::lemma_replace_none(seq![' ', 'I', '.'], "boost"@, "¤(boost)"@);
    assert(crate::text::witnessed(seq![' ', 'I', '.'], "experience"@, seq![], 0)) by { reveal_with_fuel(crate::text::witnessed, 2); }
    crate::text::lemma_witnessed_none(seq![' ', 'I', '.'], "experience"@, seq![], 0);
    crate::text::lemma_replace_none(seq![' ', 'I', '.'], "experience"@, "¤(xp)"@);
    assert(crate::text::witnessed(seq![' ', 'I', '.'], "Experience"@, seq![], 0)) by { reveal_with_fuel(crate::text::witnessed, 2); }
    crate::text::lemma_witnessed_none(seq![' ', 'I', '.'], "Experience"@, seq![], 0);
    crate::text::lemma_replace_none(seq![' ', 'I', '.'], "Experience"@, "¤(Xp)"@);
    assert(crate::text::witnessed(seq![' ', 'I', '.'], " mana "@, seq![], 0)) by { reveal_with_fuel(crate::text::witnessed, 2); }
    crate::text::lemma_witnessed_none(seq![' ', 'I', '.'], " mana "@, seq![], 0);
    crate::text::lemma_replace_none(seq![' ', 'I', '.'], " mana "@, " ¤(mana) "@);
}

/// What group 1 makes of the middle of phrase 32.
proof fn lemma_phrase_32_group_1()
    ensures
        phrase_group_1(seq![' ', 'I', '.']) == seq![' ', 'I', '.'],
{
    reveal(phrase_group_1);
    reveal_strlit(" Mana ");
    reveal_strlit(" Mana,");
    reveal_strlit(" Mana.");
    reveal_strlit(" mana,");
    reveal_strlit(" mana.");
    reveal_strlit(" ¤(Mana) ");
    reveal_strlit(" ¤(Mana),");
    reveal_strlit(" ¤(Mana).");
    reveal_strlit(" ¤(mana),");
    reveal_strlit(" ¤(mana).");
    reveal_strlit("I am");
    reveal_strlit("I'm");
    reveal_strlit("I’m");
    assert(crate::text::witnessed(seq![' ', 'I', '.'], " mana."@, seq![], 0)) by { reveal_with_fuel(crate::text::witnessed, 2); }
    crate::text::lemma_witnessed_none(seq![' ', 'I', '.'], " mana."@, seq![], 0);
    crate::text::lemma_replace_none(seq![' ', 'I', '.'], " mana."@, " ¤(mana)."@);
    assert(crate::text::witnessed(seq![' ', 'I', '.'], " mana,"@, seq![], 0)) by { reveal_with_fuel(crate::text::witnessed, 2); }
    crate::text::lemma_witnessed_none(seq![' ', 'I', '.'], " mana,"@, seq![], 0);
    crate::text::lemma_replace_none(seq![' ', 'I', '.'], " mana,"@, " ¤(mana),"@);
    assert(crate::text::witnessed(seq![' ', 'I', '.'], " Mana "@, seq![], 0)) by { reveal_with_fuel(crate::text::witnessed, 2); }
    crate::text::lemma_witnessed_none(seq![' ', 'I', '.'], " Mana "@, seq![], 0);
    crate::text::lemma_replace_none(seq![' ', 'I', '.'], " Mana "@, " ¤(Mana) "@);
    assert(crate::text::witnessed(seq![' ', 'I', '.'], " Mana."@, seq![], 0)) by { reveal_with_fuel(crate::text::witnessed, 2); }
    crate::text::lemma_witnessed_none(seq![' ', 'I', '.'], " Mana."@, seq![], 0);
    crate::text::lemma_replace_none(seq![' ', 'I', '.'], " Mana."@, " ¤(Mana)."@);
    assert(crate::text::witnessed(seq![' ', 'I', '.'], " Mana,"@, seq![], 0)) by { reveal_with_fuel(crate::text::witnessed, 2); }
    crate::text::lemma_witnessed_none(seq![' ', 'I', '.'], " Mana,"@, seq![], 0);
    crate::text::lemma_replace_none(seq![' ', 'I', '.'], " Mana,"@, " ¤(Mana),"@);
    assert(crate::text::witnessed(seq![' ', 'I', '.'], "I’m"@, seq![0], 0)) by { reveal_with_fuel(crate::text::witnessed, 3); }
    crate::text::lemma_witnessed_none(seq![' ', 'I', '.'], "I’m"@, seq![0], 0);
    crate::text::lemma_replace_none(seq![' ', 'I', '.'], "I’m"@, "I am"@);
    assert(crate::text::witnessed(seq![' ', 'I', '.'], "I'm"@, seq![0], 0)) by { reveal_with_fuel(crate::text::witnessed, 3); }
    crate::text::lemma_witnessed_none(seq![' ', 'I', '.'], "I'm"@, seq![0], 0);
    crate::text::lemma_replace_none(seq![' ', 'I', '.'], "I'm"@, "I am"@);
}

/// What group 2 makes of the middle of phrase 32.
proof fn lemma_phrase_32_group_2()
    ensures
        phrase_group_2(seq![' ', 'I', '.']) == seq![' ', 'I', '.'],
{
    reveal(phrase_group_2);
    reveal_strlit(" I am ");
    reveal_strlit(" I have");
    reveal_strlit(" me ");
    reveal_strlit(" my ");
    reveal_strlit(" ¤(I have)");
    reveal_strlit(" ¤(i am) ");
    reveal_strlit(" ¤(i have)");
    reveal_strlit(" ¤(me) ");
    reveal_strlit(" ¤(my) ");
    reveal_strlit(". I am ");
    reveal_strlit(". I have");
    reveal_strlit(". My ");
    reveal_strlit(". ¤(I am) ");
    reveal_strlit(". ¤(My) ");
    assert(crate::text::witnessed(seq![' ', 'I', '.'], ". I am "@, seq![], 0)) by { reveal_with_fuel(crate::text::witnessed, 2); }
    crate::text::lemma_witnessed_none(seq![' ', 'I', '.'], ". I am "@, seq![], 0);
    crate::text::lemma_replace_none(seq![' ', 'I', '.'], ". I am "@, ". ¤(I am) "@);
    assert(crate::text::witnessed(seq![' ', 'I', '.'], " I am "@, seq![], 0)) by { reveal_with_fuel(crate::text::witnessed, 2); }
    crate::text::lemma_witnessed_none(seq![' ', 'I', '.'], " I am "@, seq![], 0);
    crate::text::lemma_replace_none(seq![' ', 'I', '.'], " I am "@, " ¤(i am) "@);
    assert(crate::text::witnessed(seq![' ', 'I', '.'], " I have"@, seq![], 0)) by { reveal_with_fuel(crate::text::witnessed, 2); }
    crate::text::lemma_witnessed_none(seq![' ', 'I', '.'], " I have"@, seq![], 0);
    crate::text::lemma_replace_none(seq![' ', 'I', '.'], " I have"@, " ¤(i have)"@);
    assert(crate::text::witnessed(seq![' ', 'I', '.'], ". I have"@, seq![], 0)) by { reveal_with_fuel(crate::text::witnessed, 2); }
    crate::text::lemma_witnessed_none(seq![' ', 'I', '.'], ". I have"@, seq![], 0);
    crate::text::lemma_replace_none(seq![' ', 'I', '.'], ". I have"@, " ¤(I have)"@);
    assert(crate::text::witnessed(seq![' ', 'I', '.'], " my "@, seq![], 0)) by { reveal_with_fuel(crate::text::witnessed, 2); }
    crate::text::lemma_witnessed_none(seq![' ', 'I', '.'], " my "@, seq![], 0);
    crate::text::lemma_replace_none(seq![' ', 'I', '.'], " my "@, " ¤(my) "@);
    assert(crate::text::witnessed(seq![' ', 'I', '.'], ". My "@, seq![], 0)) by { reveal_with_fuel(crate::text::witnessed, 2); }
    crate::text::lemma_witnessed_none(seq![' ', 'I', '.'], ". My "@, seq![], 0);
    crate::text::lemma_replace_none(seq![' ', 'I', '.'], ". My "@, ". ¤(My) "@);
    assert(crate::text::witnessed(seq![' ', 'I', '.'], " me "@, seq![], 0)) by { reveal_with_fuel(crate::text::witnessed, 2); }
    crate::text::lemma_witnessed_none(seq![' ', 'I', '.'], " me "@, seq![], 0);
    crate::text::lemma_replace_none(seq![' ', 'I', '.'], " me "@, " ¤(me) "@);
}

/// What group 3 makes of the middle of phrase 32.
proof fn lemma_phrase_32_group_3()
    ensures
        phrase_group_3(seq![' ', 'I', '.']) == seq![' ', 'I', '.'],
{
    reveal(phrase_group_3);
    reveal_strlit(" Me ");
    reveal_strlit(" Me,");
    reveal_strlit(" Me.");
    reveal_strlit(" me,");
    reveal_strlit(" me.");
    reveal_strlit(" ¤(Me) ");
    reveal_strlit(" ¤(Me),");
    reveal_strlit(" ¤(Me).");
    reveal_strlit(" ¤(me),");
    reveal_strlit(" ¤(me).");
    reveal_strlit(". I ");
    reveal_strlit(". ¤(I) ");
    reveal_strlit("\nI ");
    reveal_strlit("\n¤(I) ");
    assert(crate::text::witnessed(seq![' ', 'I', '.'], " me,"@, seq![], 0)) by { reveal_with_fuel(crate::text::witnessed, 2); }
    crate::text::lemma_witnessed_none(seq![' ', 'I', '.'], " me,"@, seq![], 0);
    crate::text::lemma_replace_none(seq![' ', 'I', '.'], " me,"@, " ¤(me),"@);
    assert(crate::text::witnessed(seq![' ', 'I', '.'], " me."@, seq![], 0)) by { reveal_with_fuel(crate::text::witnessed, 2); }
    crate::text::lemma_witnessed_none(seq![' ', 'I', '.'], " me."@, seq![], 0);
    crate::text::lemma_replace_none(seq![' ', 'I', '.'], " me."@, " ¤(me)."@);
    assert(crate::text::witnessed(seq![' ', 'I', '.'], " Me "@, seq![], 0)) by { reveal_with_fuel(crate::text::witnessed, 2); }
    crate::text::lemma_witnessed_none(seq![' ', 'I', '.'], " Me "@, seq![], 0);
    crate::text::lemma_replace_none(seq![' ', 'I', '.'], " Me "@, " ¤(Me) "@);
    assert(crate::text::witnessed(seq![' ', 'I', '.'], " Me,"@, seq![], 0)) by { reveal_with_fuel(crate::text::witnessed, 2); }
    crate::text::lemma_witnessed_none(seq![' ', 'I', '.'], " Me,"@, seq![], 0);
    crate::text::lemma_replace_none(seq![' ', 'I', '.'], " Me,"@, " ¤(Me),"@);
    assert(crate::text::witnessed(seq![' ', 'I', '.'], " Me."@, seq![], 0)) by { reveal_with_fuel(crate::text::witnessed, 2); }
    crate::text::lemma_witnessed_none(seq![' ', 'I', '.'], " Me."@, seq![], 0);
    crate::text::lemma_replace_none(seq![' ', 'I', '.'], " Me."@, " ¤(Me)."@);
    assert(crate::text::witnessed(seq![' ', 'I', '.'], "\nI "@, seq![0], 0)) by { reveal_with_fuel(crate::text::witnessed, 3); }
    crate::text::lemma_witnessed_none(seq![' ', 'I', '.'], "\nI "@, seq![0], 0);
    crate::text::lemma_replace_none(seq![' ', 'I', '.'], "\nI "@, "\n¤(I) "@);
    assert(crate::text::witnessed(seq![' ', 'I', '.'], ". I "@, seq![], 0)) by { reveal_with_fuel(crate::text::witnessed, 2); }
    crate::text::lemma_witnessed_none(seq![' ', 'I', '.'], ". I "@, seq![], 0);
    crate::text::lemma_replace_none(seq![' ', 'I', '.'], ". I "@, ". ¤(I) "@);
}

/// What group 4 makes of the middle of phrase 32.
proof fn lemma_phrase_32_group_4()
    ensures
        phrase_group_4(seq![' ', 'I', '.']) == seq![' ', '\u{a4}', '(', 'i', ')', '.'],
{
    reveal(phrase_group_4);
    reveal_strlit(" I ");
    reveal_strlit(" I,");
    reveal_strlit(" I.");
    reveal_strlit(" ¤(i) ");
    reveal_strlit(" ¤(i),");
    reveal_strlit(" ¤(i).");
    reveal_strlit(". I,");
    reveal_strlit(". I.");
    reveal_strlit(". ¤(I),");
    reveal_strlit(". ¤(I). ");
    reveal_strlit("Cards ¤(I am) attached to");
    reveal_strlit("The card ¤(I am) attached to");
    reveal_strlit("cards ¤(I am) attached to");
    reveal_strlit("the card ¤(I am) attached to");
    assert(crate::text::witnessed(seq![' ', 'I', '.'], ". I,"@, seq![], 0)) by { reveal_with_fuel(crate::text::witnessed, 2); }
    crate::text::lemma_witnessed_none(seq![' ', 'I', '.'], ". I,"@, seq![], 0);
    crate::text::lemma_replace_none(seq![' ', 'I', '.'], ". I,"@, ". ¤(I),"@);
    assert(crate::text::witnessed(seq![' ', 'I', '.'], ". I."@, seq![], 0)) by { reveal_with_fuel(crate::text::witnessed, 2); }
    crate::text::lemma_witnessed_none(seq![' ', 'I', '.'], ". I."@, seq![], 0);
    crate::text::lemma_replace_none(seq![' ', 'I', '.'], ". I."@, ". ¤(I). "@);
    assert(crate::text::witnessed(seq![' ', 'I', '.'], " I "@, seq![2], 0)) by { reveal_with_fuel(crate::text::witnessed, 3); }
    crate::text::lemma_witnessed_none(seq![' ', 'I', '.'], " I "@, seq![2], 0);
    crate::text::lemma_replace_none(seq![' ', 'I', '.'], " I "@, " ¤(i) "@);
    assert(crate::text::witnessed(seq![' ', 'I', '.'], " I,"@, seq![2], 0)) by { reveal_with_fuel(crate::text::witnessed, 3); }
    crate::text::lemma_witnessed_none(seq![' ', 'I', '.'], " I,"@, seq![2], 0);
    crate::text::lemma_replace_none(seq![' ', 'I', '.'], " I,"@, " ¤(i),"@);
    assert(crate::text::witnessed_until(seq![' ', 'I', '.'], " I."@, seq![], 0, 0)) by { reveal_with_fuel(crate::text::witnessed_until, 2); }
    assert(crate::text::witnessed(seq![' ', 'I', '.'], " I."@, seq![0, 0, 0], 3)) by { reveal_with_fuel(crate::text::witnessed, 5); }
    assert(seq![' ', 'I', '.'].subrange(0, 3) =~= " I."@);
    crate::text::lemma_replace_once(seq![' ', 'I', '.'], " I."@, " ¤(i)."@, 0, seq![], seq![0, 0, 0]);
    assert(seq![' ', 'I', '.'].subrange(0, 0) + " ¤(i)."@ + seq![' ', 'I', '.'].subrange(3, 3) =~= seq![' ', '\u{a4}', '(', 'i', ')', '.']);
    assert(crate::text::witnessed(seq![' ', '\u{a4}', '(', 'i', ')', '.'], "Cards ¤(I am) attached to"@, seq![], 0)) by { reveal_with_fuel(crate::text::witnessed, 2); }
    crate::text::lemma_witnessed_none(seq![' ', '\u{a4}', '(', 'i', ')', '.'], "Cards ¤(I am) attached to"@, seq![], 0);
    crate::text::lemma_replace_none(seq![' ', '\u{a4}', '(', 'i', ')', '.'], "Cards ¤(I am) attached to"@, "The card ¤(I am) attached to"@);
    assert(crate::text::witnessed(seq![' ', '\u{a4}', '(', 'i', ')', '.'], "cards ¤(I am) attached to"@, seq![], 0)) by { reveal_with_fuel(crate::text::witnessed, 2); }
    crate::text::lemma_witnessed_none(seq![' ', '\u{a4}', '(', 'i', ')', '.'], "cards ¤(I am) attached to"@, seq![], 0);
    crate::text::lemma_replace_none(seq![' ', '\u{a4}', '(', 'i', ')', '.'], "cards ¤(I am) attached to"@, "the card ¤(I am) attached to"@);
}

/// Between digits, phrase 32 becomes what the card text makes of it.
proof fn lemma_phrase_32(x: Seq<char>, y: Seq<char>)
    requires
        all_digits(x),
        all_digits(y),
        trim(x + " I."@ + y) == x + " I."@ + y,
    ensures
        phrase_commands(x + " I."@ + y) == Some(x + seq![' ', '\u{a4}', '(', 'i', ')', '.'] + y),
{
    reveal_strlit(" I.");
    assert(" I."@ =~= seq![' ', 'I', '.']);
    reveal_strlit("Card with");
    reveal_strlit("card with");
    reveal_strlit("Cards with");
    reveal_strlit("cards with");
    let m0 = seq![' ', 'I', '.'];
    lemma_group_framed_0(x, m0, y);
    lemma_phrase_32_group_0();
    let m1 = phrase_group_0(m0);
    lemma_group_framed_1(x, m1, y);
    lemma_phrase_32_group_1();
    let m2 = phrase_group_1(m1);
    lemma_group_framed_2(x, m2, y);
    lemma_phrase_32_group_2();
    let m3 = phrase_group_2(m2);
    lemma_group_framed_3(x, m3, y);
    lemma_phrase_32_group_3();
    let m4 = phrase_group_3(m3);
    lemma_group_framed_4(x, m4, y);
    lemma_phrase_32_group_4();
    let m5 = phrase_group_4(m4);
    assert(crate::text::witnessed(seq![' ', '\u{a4}', '(', 'i', ')', '.'], "Card with"@, seq![], 0)) by { reveal_with_fuel(crate::text::witnessed, 2); }
    crate::text::lemma_witnessed_none(seq![' ', '\u{a4}', '(', 'i', ')', '.'], "Card with"@, seq![], 0);
    assert(digit_free("Card with"@));
    crate::text::lemma_replace_framed(x, seq![' ', '\u{a4}', '(', 'i', ')', '.'], y, "Card with"@, "Card with"@);
    assert(with_marker(WithPhrase::Card) == "Card with"@);
    assert(crate::text::witnessed(seq![' ', '\u{a4}', '(', 'i', ')', '.'], "card with"@, seq![], 0)) by { reveal_with_fuel(crate::text::witnessed, 2); }
    crate::text::lemma_witnessed_none(seq![' ', '\u{a4}', '(', 'i', ')', '.'], "card with"@, seq![], 0);
    assert(digit_free("card with"@));
    crate::text::lemma_replace_framed(x, seq![' ', '\u{a4}', '(', 'i', ')', '.'], y, "card with"@, "card with"@);
    assert(with_marker(WithPhrase::CardLower) == "card with"@);
    assert(crate::text::witnessed(seq![' ', '\u{a4}', '(', 'i', ')', '.'], "Cards with"@, seq![], 0)) by { reveal_with_fuel(crate::text::witnessed, 2); }
    crate::text::lemma_witnessed_none(seq![' ', '\u{a4}', '(', 'i', ')', '.'], "Cards with"@, seq![], 0);
    assert(digit_free("Cards with"@));
    crate::text::lemma_replace_framed(x, seq![' ', '\u{a4}', '(', 'i', ')', '.'], y, "Cards with"@, "Cards with"@);
    assert(with_marker(WithPhrase::Cards) == "Cards with"@);
    assert(crate::text::witnessed(seq![' ', '\u{a4}', '(', 'i', ')', '.'], "cards with"@, seq![], 0)) by { reveal_with_fuel(crate::text::witnessed, 2); }
    crate::text::lemma_witnessed_none(seq![' ', '\u{a4}', '(', 'i', ')', '.'], "cards with"@, seq![], 0);
    assert(digit_free("cards with"@));
    crate::text::lemma_replace_framed(x, seq![' ', '\u{a4}', '(', 'i', ')', '.'], y, "cards with"@, "cards with"@);
    assert(with_marker(WithPhrase::CardsLower) == "cards with"@);
}

/// What group 0 makes of the middle of phrase 33.
proof fn lemma_phrase_33_group_0()
    ensures
        phrase_group_0(seq!['C', 'a', 'r', 'd', 's', ' ', '\u{a4}', '(', 'I', ' ', 'a', 'm', ')', ' ', 'a', 't', 't', 'a', 'c', 'h', 'e', 'd', ' ', 't', 'o']) == seq!['C', 'a', 'r', 'd', 's', ' ', '\u{a4}', '(', 'I', ' ', 'a', 'm', ')', ' ', 'a', 't', 't', 'a', 'c', 'h', 'e', 'd', ' ', 't', 'o'],
{
    reveal(phrase_group_0);
    reveal_strlit(" ");
    reveal_strlit("  ");
    reveal_strlit(" mana ");
    reveal_strlit(" ¤(mana) ");
    reveal_strlit("Boost");
    reveal_strlit("Experience");
    reveal_strlit("\n ");
    reveal_strlit("boost");
    reveal_strlit("experience");
    reveal_strlit("¤(Boost)");
    reveal_strlit("¤(Xp)");
    reveal_strlit("¤(boost)");
    reveal_strlit("¤(xp)");
    assert(crate::text::witnessed(seq!['C', 'a', 'r', 'd', 's', ' ', '\u{a4}', '(', 'I', ' ', 'a', 'm', ')', ' ', 'a', 't', 't', 'a', 'c', 'h', 'e', 'd', ' ', 't', 'o'], "\n "@, seq![0, 0, 0, 0, 0, 0, 0, 0, 0, 0, 0, 0, 0, 0, 0, 0, 0, 0, 0, 0, 0, 0, 0, 0], 0)) by { reveal_with_fuel(crate::text::witnessed, 26); }
    crate::text::lemma_witnessed_none(seq!['C', 'a', 'r', 'd', 's', ' ', '\u{a4}', '(', 'I', ' ', 'a', 'm', ')', ' ', 'a', 't', 't', 'a', 'c', 'h', 'e', 'd', ' ', 't', 'o'], "\n "@, seq![0, 0, 0, 0, 0, 0, 0, 0, 0, 0, 0, 0, 0, 0, 0, 0, 0, 0, 0, 0, 0, 0, 0, 0], 0);
    crate::text::lemma_replace_none(seq!['C', 'a', 'r', 'd', 's', ' ', '\u{a4}', '(', 'I', ' ', 'a', 'm', ')', ' ', 'a', 't', 't', 'a', 'c', 'h', 'e', 'd', ' ', 't', 'o'], "\n "@, " "@);
    assert(crate::text::witnessed(seq!['C', 'a', 'r', 'd', 's', ' ', '\u{a4}', '(', 'I', ' ', 'a', 'm', ')', ' ', 'a', 't', 't', 'a', 'c', 'h', 'e', 'd', ' ', 't', 'o'], "  "@, seq![0, 0, 0, 0, 0, 1, 0, 0, 0, 1, 0, 0, 0, 1, 0, 0, 0, 0, 0, 0, 0, 0, 1, 0], 0)) by { reveal_with_fuel(crate::text::witnessed, 26); }
    crate::text::lemma_witnessed_none(seq!['C', 'a', 'r', 'd', 's', ' ', '\u{a4}', '(', 'I', ' ', 'a', 'm', ')', ' ', 'a', 't', 't', 'a', 'c', 'h', 'e', 'd', ' ', 't', 'o'], "  "@, seq![0, 0, 0, 0, 0, 1, 0, 0, 0, 1, 0, 0, 0, 1, 0, 0, 0, 0, 0, 0, 0, 0, 1, 0], 0);
    crate::text::lemma_replace_none(seq!['C', 'a', 'r', 'd', 's', ' ', '\u{a4}', '(', 'I', ' ', 'a', 'm', ')', ' ', 'a', 't', 't', 'a', 'c', 'h', 'e', 'd', ' ', 't', 'o'], "  "@, " "@);
    assert(crate::text::witnessed(seq!['C', 'a', 'r', 'd', 's', ' ', '\u{a4}', '(', 'I', ' ', 'a', 'm', ')', ' ', 'a', 't', 't', 'a', 'c', 'h', 'e', 'd', ' ', 't', 'o'], "Boost"@, seq![0, 0, 0, 0, 0, 0, 0, 0, 0, 0, 0, 0, 0, 0, 0, 0, 0, 0, 0, 0, 0], 0)) by { reveal_with_fuel(crate::text::witnessed, 23); }
    crate::text::lemma_witnessed_none(seq!['C', 'a', 'r', 'd', 's', ' ', '\u{a4}', '(', 'I', ' ', 'a', 'm', ')', ' ', 'a', 't', 't', 'a', 'c', 'h', 'e', 'd', ' ', 't', 'o'], "Boost"@, seq![0, 0, 0, 0, 0, 0, 0, 0, 0, 0, 0, 0, 0, 0, 0, 0, 0, 0, 0, 0, 0], 0);
    crate::text::lemma_replace_none(seq!['C', 'a', 'r', 'd', 's', ' ', '\u{a4}', '(', 'I', ' ', 'a', 'm', ')', ' ', 'a', 't', 't', 'a', 'c', 'h', 'e', 'd', ' ', 't', 'o'], "Boost"@, "¤(Boost)"@);
    assert(crate::text::witnessed(seq!['C', 'a', 'r', 'd', 's', ' ', '\u{a4}', '(', 'I', ' ', 'a', 'm', ')', ' ', 'a', 't', 't', 'a', 'c', 'h', 'e', 'd', ' ', 't', 'o'], "boost"@, seq![0, 0, 0, 0, 0, 0, 0, 0, 0, 0, 0, 0, 0, 0, 0, 0, 0, 0, 0, 0, 0], 0)) by { reveal_with_fuel(crate::text::witnessed, 23); }
    crate::text::lemma_witnessed_none(seq!['C', 'a', 'r', 'd', 's', ' ', '\u{a4}', '(', 'I', ' ', 'a', 'm', ')', ' ', 'a', 't', 't', 'a', 'c', 'h', 'e', 'd', ' ', 't', 'o'], "boost"@, seq![0, 0, 0, 0, 0, 0, 0, 0, 0, 0, 0, 0, 0, 0, 0, 0, 0, 0, 0, 0, 0], 0);
    crate::text::lemma_replace_none(seq!['C', 'a', 'r', 'd', 's', ' ', '\u{a4}', '(', 'I', ' ', 'a', 'm', ')', ' ', 'a', 't', 't', 'a', 'c', 'h', 'e', 'd', ' ', 't', 'o'], "boost"@, "¤(boost)"@);
    assert(crate::text::witnessed(seq!['C', 'a', 'r', 'd', 's', ' ', '\u{a4}', '(', 'I', ' ', 'a', 'm', ')', ' ', 'a', 't', 't', 'a', 'c', 'h', 'e', 'd', ' ', 't', 'o'], "experience"@, seq![0, 0, 0, 0, 0, 0, 0, 0, 0, 0, 0, 0, 0, 0, 0, 0], 0)) by { reveal_with_fuel(crate::text::witnessed, 18); }
    crate::text::lemma_witnessed_none(seq!['C', 'a', 'r', 'd', 's', ' ', '\u{a4}', '(', 'I', ' ', 'a', 'm', ')', ' ', 'a', 't', 't', 'a', 'c', 'h', 'e', 'd', ' ', 't', 'o'], "experience"@, seq![0, 0, 0, 0, 0, 0, 0, 0, 0, 0, 0, 0, 0, 0, 0, 0], 0);
    crate::text::lemma_replace_none(seq!['C', 'a', 'r', 'd', 's', ' ', '\u{a4}', '(', 'I', ' ', 'a', 'm', ')', ' ', 'a', 't', 't', 'a', 'c', 'h', 'e', 'd', ' ', 't', 'o'], "experience"@, "¤(xp)"@);
    assert(crate::text::witnessed(seq!['C', 'a', 'r', 'd', 's', ' ', '\u{a4}', '(', 'I', ' ', 'a', 'm', ')', ' ', 'a', 't', 't', 'a', 'c', 'h', 'e', 'd', ' ', 't', 'o'], "Experience"@, seq![0, 0, 0, 0, 0, 0, 0, 0, 0, 0, 0, 0, 0, 0, 0, 0], 0)) by { reveal_with_fuel(crate::text::witnessed, 18); }
    crate::text::lemma_witnessed_none(seq!['C', 'a', 'r', 'd', 's', ' ', '\u{a4}', '(', 'I', ' ', 'a', 'm', ')', ' ', 'a', 't', 't', 'a', 'c', 'h', 'e', 'd', ' ', 't', 'o'], "Experience"@, seq![0, 0, 0, 0, 0, 0, 0, 0, 0, 0, 0, 0, 0, 0, 0, 0], 0);
    crate::text::lemma_replace_none(seq!['C', 'a', 'r', 'd', 's', ' ', '\u{a4}', '(', 'I', ' ', 'a', 'm', ')', ' ', 'a', 't', 't', 'a', 'c', 'h', 'e', 'd', ' ', 't', 'o'], "Experience"@, "¤(Xp)"@);
    assert(crate::text::witnessed(seq!['C', 'a', 'r', 'd', 's', ' ', '\u{a4}', '(', 'I', ' ', 'a', 'm', ')', ' ', 'a', 't', 't', 'a', 'c', 'h', 'e', 'd', ' ', 't', 'o'], " mana "@, seq![0, 0, 0, 0, 0, 1, 0, 0, 0, 1, 0, 0, 0, 1, 0, 0, 0, 0, 0, 0], 0)) by { reveal_with_fuel(crate::text::witnessed, 22); }
    crate::text::lemma_witnessed_none(seq!['C', 'a', 'r', 'd', 's', ' ', '\u{a4}', '(', 'I', ' ', 'a', 'm', ')', ' ', 'a', 't', 't', 'a', 'c', 'h', 'e', 'd', ' ', 't', 'o'], " mana "@, seq![0, 0, 0, 0, 0, 1, 0, 0, 0, 1, 0, 0, 0, 1, 0, 0, 0, 0, 0, 0], 0);
    crate::text::lemma_replace_none(seq!['C', 'a', 'r', 'd', 's', ' ', '\u{a4}', '(', 'I', ' ', 'a', 'm', ')', ' ', 'a', 't', 't', 'a', 'c', 'h', 'e', 'd', ' ', 't', 'o'], " mana "@, " ¤(mana) "@);
}

/// What group 1 makes of the middle of phrase 33.
proof fn lemma_phrase_33_group_1()
    ensures
        phrase_group_1(seq!['C', 'a', 'r', 'd', 's', ' ', '\u{a4}', '(', 'I', ' ', 'a', 'm', ')', ' ', 'a', 't', 't', 'a', 'c', 'h', 'e', 'd', ' ', 't', 'o']) == seq!['C', 'a', 'r', 'd', 's', ' ', '\u{a4}', '(', 'I', ' ', 'a', 'm', ')', ' ', 'a', 't', 't', 'a', 'c', 'h', 'e', 'd', ' ', 't', 'o'],
{
    reveal(phrase_group_1);
    reveal_strlit(" Mana ");
    reveal_strlit(" Mana,");
    reveal_strlit(" Mana.");
    reveal_strlit(" mana,");
    reveal_strlit(" mana.");
    reveal_strlit(" ¤(Mana) ");
    reveal_strlit(" ¤(Mana),");
    reveal_strlit(" ¤(Mana).");
    reveal_strlit(" ¤(mana),");
    reveal_strlit(" ¤(mana).");
    reveal_strlit("I am");
    reveal_strlit("I'm");
    reveal_strlit("I’m");
    assert(crate::text::witnessed(seq!['C', 'a', 'r', 'd', 's', ' ', '\u{a4}', '(', 'I', ' ', 'a', 'm', ')', ' ', 'a', 't', 't', 'a', 'c', 'h', 'e', 'd', ' ', 't', 'o'], " mana."@, seq![0, 0, 0, 0, 0, 1, 0, 0, 0, 1, 0, 0, 0, 1, 0, 0, 0, 0, 0, 0], 0)) by { reveal_with_fuel(crate::text::witnessed, 22); }
    crate::text::lemma_witnessed_none(seq!['C', 'a', 'r', 'd', 's', ' ', '\u{a4}', '(', 'I', ' ', 'a', 'm', ')', ' ', 'a', 't', 't', 'a', 'c', 'h', 'e', 'd', ' ', 't', 'o'], " mana."@, seq![0, 0, 0, 0, 0, 1, 0, 0, 0, 1, 0, 0, 0, 1, 0, 0, 0, 0, 0, 0], 0);
    crate::text::lemma_replace_none(seq!['C', 'a', 'r', 'd', 's', ' ', '\u{a4}', '(', 'I', ' ', 'a', 'm', ')', ' ', 'a', 't', 't', 'a', 'c', 'h', 'e', 'd', ' ', 't', 'o'], " mana."@, " ¤(mana)."@);
    assert(crate::text::witnessed(seq!['C', 'a', 'r', 'd', 's', ' ', '\u{a4}', '(', 'I', ' ', 'a', 'm', ')', ' ', 'a', 't', 't', 'a', 'c', 'h', 'e', 'd', ' ', 't', 'o'], " mana,"@, seq![0, 0, 0, 0, 0, 1, 0, 0, 0, 1, 0, 0, 0, 1, 0, 0, 0, 0, 0, 0], 0)) by { reveal_with_fuel(crate::text::witnessed, 22); }
    crate::text::lemma_witnessed_none(seq!['C', 'a', 'r', 'd', 's', ' ', '\u{a4}', '(', 'I', ' ', 'a', 'm', ')', ' ', 'a', 't', 't', 'a', 'c', 'h', 'e', 'd', ' ', 't', 'o'], " mana,"@, seq![0, 0, 0, 0, 0, 1, 0, 0, 0, 1, 0, 0, 0, 1, 0, 0, 0, 0, 0, 0], 0);
    crate::text::lemma_replace_none(seq!['C', 'a', 'r', 'd', 's', ' ', '\u{a4}', '(', 'I', ' ', 'a', 'm', ')', ' ', 'a', 't', 't', 'a', 'c', 'h', 'e', 'd', ' ', 't', 'o'], " mana,"@, " ¤(mana),"@);
    assert(crate::text::witnessed(seq!['C', 'a', 'r', 'd', 's', ' ', '\u{a4}', '(', 'I', ' ', 'a', 'm', ')', ' ', 'a', 't', 't', 'a', 'c', 'h', 'e', 'd', ' ', 't', 'o'], " Mana "@, seq![0, 0, 0, 0, 0, 1, 0, 0, 0, 1, 0, 0, 0, 1, 0, 0, 0, 0, 0, 0], 0)) by { reveal_with_fuel(crate::text::witnessed, 22); }
    crate::text::lemma_witnessed_none(seq!['C', 'a', 'r', 'd', 's', ' ', '\u{a4}', '(', 'I', ' ', 'a', 'm', ')', ' ', 'a', 't', 't', 'a', 'c', 'h', 'e', 'd', ' ', 't', 'o'], " Mana "@, seq![0, 0, 0, 0, 0, 1, 0, 0, 0, 1, 0, 0, 0, 1, 0, 0, 0, 0, 0, 0], 0);
    crate::text::lemma_replace_none(seq!['C', 'a', 'r', 'd', 's', ' ', '\u{a4}', '(', 'I', ' ', 'a', 'm', ')', ' ', 'a', 't', 't', 'a', 'c', 'h', 'e', 'd', ' ', 't', 'o'], " Mana "@, " ¤(Mana) "@);
    assert(crate::text::witnessed(seq!['C', 'a', 'r', 'd', 's', ' ', '\u{a4}', '(', 'I', ' ', 'a', 'm', ')', ' ', 'a', 't', 't', 'a', 'c', 'h', 'e', 'd', ' ', 't', 'o'], " Mana."@, seq![0, 0, 0, 0, 0, 1, 0, 0, 0, 1, 0, 0, 0, 1, 0, 0, 0, 0, 0, 0], 0)) by { reveal_with_fuel(crate::text::witnessed, 22); }
    crate::text::lemma_witnessed_none(seq!['C', 'a', 'r', 'd', 's', ' ', '\u{a4}', '(', 'I', ' ', 'a', 'm', ')', ' ', 'a', 't', 't', 'a', 'c', 'h', 'e', 'd', ' ', 't', 'o'], " Mana."@, seq![0, 0, 0, 0, 0, 1, 0, 0, 0, 1, 0, 0, 0, 1, 0, 0, 0, 0, 0, 0], 0);
    crate::text::lemma_replace_none(seq!['C', 'a', 'r', 'd', 's', ' ', '\u{a4}', '(', 'I', ' ', 'a', 'm', ')', ' ', 'a', 't', 't', 'a', 'c', 'h', 'e', 'd', ' ', 't', 'o'], " Mana."@, " ¤(Mana)."@);
    assert(crate::text::witnessed(seq!['C', 'a', 'r', 'd', 's', ' ', '\u{a4}', '(', 'I', ' ', 'a', 'm', ')', ' ', 'a', 't', 't', 'a', 'c', 'h', 'e', 'd', ' ', 't', 'o'], " Mana,"@, seq![0, 0, 0, 0, 0, 1, 0, 0, 0, 1, 0, 0, 0, 1, 0, 0, 0, 0, 0, 0], 0)) by { reveal_with_fuel(crate::text::witnessed, 22); }
    crate::text::lemma_witnessed_none(seq!['C', 'a', 'r', 'd', 's', ' ', '\u{a4}', '(', 'I', ' ', 'a', 'm', ')', ' ', 'a', 't', 't', 'a', 'c', 'h', 'e', 'd', ' ', 't', 'o'], " Mana,"@, seq![0, 0, 0, 0, 0, 1, 0, 0, 0, 1, 0, 0, 0, 1, 0, 0, 0, 0, 0, 0], 0);
    crate::text::lemma_replace_none(seq!['C', 'a', 'r', 'd', 's', ' ', '\u{a4}', '(', 'I', ' ', 'a', 'm', ')', ' ', 'a', 't', 't', 'a', 'c', 'h', 'e', 'd', ' ', 't', 'o'], " Mana,"@, " ¤(Mana),"@);
    assert(crate::text::witnessed(seq!['C', 'a', 'r', 'd', 's', ' ', '\u{a4}', '(', 'I', ' ', 'a', 'm', ')', ' ', 'a', 't', 't', 'a', 'c', 'h', 'e', 'd', ' ', 't', 'o'], "I’m"@, seq![0, 0, 0, 0, 0, 0, 0, 0, 1, 0, 0, 0, 0, 0, 0, 0, 0, 0, 0, 0, 0, 0, 0], 0)) by { reveal_with_fuel(crate::text::witnessed, 25); }
    crate::text::lemma_witnessed_none(seq!['C', 'a', 'r', 'd', 's', ' ', '\u{a4}', '(', 'I', ' ', 'a', 'm', ')', ' ', 'a', 't', 't', 'a', 'c', 'h', 'e', 'd', ' ', 't', 'o'], "I’m"@, seq![0, 0, 0, 0, 0, 0, 0, 0, 1, 0, 0, 0, 0, 0, 0, 0, 0, 0, 0, 0, 0, 0, 0], 0);
    crate::text::lemma_replace_none(seq!['C', 'a', 'r', 'd', 's', ' ', '\u{a4}', '(', 'I', ' ', 'a', 'm', ')', ' ', 'a', 't', 't', 'a', 'c', 'h', 'e', 'd', ' ', 't', 'o'], "I’m"@, "I am"@);
    assert(crate::text::witnessed(seq!['C', 'a', 'r', 'd', 's', ' ', '\u{a4}', '(', 'I', ' ', 'a', 'm', ')', ' ', 'a', 't', 't', 'a', 'c', 'h', 'e', 'd', ' ', 't', 'o'], "I'm"@, seq![0, 0, 0, 0, 0, 0, 0, 0, 1, 0, 0, 0, 0, 0, 0, 0, 0, 0, 0, 0, 0, 0, 0], 0)) by { reveal_with_fuel(crate::text::witnessed, 25); }
    crate::text::lemma_witnessed_none(seq!['C', 'a', 'r', 'd', 's', ' ', '\u{a4}', '(', 'I', ' ', 'a', 'm', ')', ' ', 'a', 't', 't', 'a', 'c', 'h', 'e', 'd', ' ', 't', 'o'], "I'm"@, seq![0, 0, 0, 0, 0, 0, 0, 0, 1, 0, 0, 0, 0, 0, 0, 0, 0, 0, 0, 0, 0, 0, 0], 0);
    crate::text::lemma_replace_none(seq!['C', 'a', 'r', 'd', 's', ' ', '\u{a4}', '(', 'I', ' ', 'a', 'm', ')', ' ', 'a', 't', 't', 'a', 'c', 'h', 'e', 'd', ' ', 't', 'o'], "I'm"@, "I am"@);
}

/// What group 2 makes of the middle of phrase 33.
proof fn lemma_phrase_33_group_2()
    ensures
        phrase_group_2(seq!['C', 'a', 'r', 'd', 's', ' ', '\u{a4}', '(', 'I', ' ', 'a', 'm', ')', ' ', 'a', 't', 't', 'a', 'c', 'h', 'e', 'd', ' ', 't', 'o']) == seq!['C', 'a', 'r', 'd', 's', ' ', '\u{a4}', '(', 'I', ' ', 'a', 'm', ')', ' ', 'a', 't', 't', 'a', 'c', 'h', 'e', 'd', ' ', 't', 'o'],
{
    reveal(phrase_group_2);
    reveal_strlit(" I am ");
    reveal_strlit(" I have");
    reveal_strlit(" me ");
    reveal_strlit(" my ");
    reveal_strlit(" ¤(I have)");
    reveal_strlit(" ¤(i am) ");
    reveal_strlit(" ¤(i have)");
    reveal_strlit(" ¤(me) ");
    reveal_strlit(" ¤(my) ");
    reveal_strlit(". I am ");
    reveal_strlit(". I have");
    reveal_strlit(". My ");
    reveal_strlit(". ¤(I am) ");
    reveal_strlit(". ¤(My) ");
    assert(crate::text::witnessed(seq!['C', 'a', 'r', 'd', 's', ' ', '\u{a4}', '(', 'I', ' ', 'a', 'm', ')', ' ', 'a', 't', 't', 'a', 'c', 'h', 'e', 'd', ' ', 't', 'o'], ". I am "@, seq![0, 0, 0, 0, 0, 0, 0, 0, 0, 0, 0, 0, 0, 0, 0, 0, 0, 0, 0], 0)) by { reveal_with_fuel(crate::text::witnessed, 21); }
    crate::text::lemma_witnessed_none(seq!['C', 'a', 'r', 'd', 's', ' ', '\u{a4}', '(', 'I', ' ', 'a', 'm', ')', ' ', 'a', 't', 't', 'a', 'c', 'h', 'e', 'd', ' ', 't', 'o'], ". I am "@, seq![0, 0, 0, 0, 0, 0, 0, 0, 0, 0, 0, 0, 0, 0, 0, 0, 0, 0, 0], 0);
    crate::text::lemma_replace_none(seq!['C', 'a', 'r', 'd', 's', ' ', '\u{a4}', '(', 'I', ' ', 'a', 'm', ')', ' ', 'a', 't', 't', 'a', 'c', 'h', 'e', 'd', ' ', 't', 'o'], ". I am "@, ". ¤(I am) "@);
    assert(crate::text::witnessed(seq!['C', 'a', 'r', 'd', 's', ' ', '\u{a4}', '(', 'I', ' ', 'a', 'm', ')', ' ', 'a', 't', 't', 'a', 'c', 'h', 'e', 'd', ' ', 't', 'o'], " I am "@, seq![0, 0, 0, 0, 0, 1, 0, 0, 0, 1, 0, 0, 0, 1, 0, 0, 0, 0, 0, 0], 0)) by { reveal_with_fuel(crate::text::witnessed, 22); }
    crate::text::lemma_witnessed_none(seq!['C', 'a', 'r', 'd', 's', ' ', '\u{a4}', '(', 'I', ' ', 'a', 'm', ')', ' ', 'a', 't', 't', 'a', 'c', 'h', 'e', 'd', ' ', 't', 'o'], " I am "@, seq![0, 0, 0, 0, 0, 1, 0, 0, 0, 1, 0, 0, 0, 1, 0, 0, 0, 0, 0, 0], 0);
    crate::text::lemma_replace_none(seq!['C', 'a', 'r', 'd', 's', ' ', '\u{a4}', '(', 'I', ' ', 'a', 'm', ')', ' ', 'a', 't', 't', 'a', 'c', 'h', 'e', 'd', ' ', 't', 'o'], " I am "@, " ¤(i am) "@);
    assert(crate::text::witnessed(seq!['C', 'a', 'r', 'd', 's', ' ', '\u{a4}', '(', 'I', ' ', 'a', 'm', ')', ' ', 'a', 't', 't', 'a', 'c', 'h', 'e', 'd', ' ', 't', 'o'], " I have"@, seq![0, 0, 0, 0, 0, 1, 0, 0, 0, 1, 0, 0, 0, 1, 0, 0, 0, 0, 0], 0)) by { reveal_with_fuel(crate::text::witnessed, 21); }
    crate::text::lemma_witnessed_none(seq!['C', 'a', 'r', 'd', 's', ' ', '\u{a4}', '(', 'I', ' ', 'a', 'm', ')', ' ', 'a', 't', 't', 'a', 'c', 'h', 'e', 'd', ' ', 't', 'o'], " I have"@, seq![0, 0, 0, 0, 0, 1, 0, 0, 0, 1, 0, 0, 0, 1, 0, 0, 0, 0, 0], 0);
    crate::text::lemma_replace_none(seq!['C', 'a', 'r', 'd', 's', ' ', '\u{a4}', '(', 'I', ' ', 'a', 'm', ')', ' ', 'a', 't', 't', 'a', 'c', 'h', 'e', 'd', ' ', 't', 'o'], " I have"@, " ¤(i have)"@);
    assert(crate::text::witnessed(seq!['C', 'a', 'r', 'd', 's', ' ', '\u{a4}', '(', 'I', ' ', 'a', 'm', ')', ' ', 'a', 't', 't', 'a', 'c', 'h', 'e', 'd', ' ', 't', 'o'], ". I have"@, seq![0, 0, 0, 0, 0, 0, 0, 0, 0, 0, 0, 0, 0, 0, 0, 0, 0, 0], 0)) by { reveal_with_fuel(crate::text::witnessed, 20); }
    crate::text::lemma_witnessed_none(seq!['C', 'a', 'r', 'd', 's', ' ', '\u{a4}', '(', 'I', ' ', 'a', 'm', ')', ' ', 'a', 't', 't', 'a', 'c', 'h', 'e', 'd', ' ', 't', 'o'], ". I have"@, seq![0, 0, 0, 0, 0, 0, 0, 0, 0, 0, 0, 0, 0, 0, 0, 0, 0, 0], 0);
    crate::text::lemma_replace_none(seq!['C', 'a', 'r', 'd', 's', ' ', '\u{a4}', '(', 'I', ' ', 'a', 'm', ')', ' ', 'a', 't', 't', 'a', 'c', 'h', 'e', 'd', ' ', 't', 'o'], ". I have"@, " ¤(I have)"@);
    assert(crate::text::witnessed(seq!['C', 'a', 'r', 'd', 's', ' ', '\u{a4}', '(', 'I', ' ', 'a', 'm', ')', ' ', 'a', 't', 't', 'a', 'c', 'h', 'e', 'd', ' ', 't', 'o'], " my "@, seq![0, 0, 0, 0, 0, 1, 0, 0, 0, 1, 0, 0, 0, 1, 0, 0, 0, 0, 0, 0, 0, 0], 0)) by { reveal_with_fuel(crate::text::witnessed, 24); }
    crate::text::lemma_witnessed_none(seq!['C', 'a', 'r', 'd', 's', ' ', '\u{a4}', '(', 'I', ' ', 'a', 'm', ')', ' ', 'a', 't', 't', 'a', 'c', 'h', 'e', 'd', ' ', 't', 'o'], " my "@, seq![0, 0, 0, 0, 0, 1, 0, 0, 0, 1, 0, 0, 0, 1, 0, 0, 0, 0, 0, 0, 0, 0], 0);
    crate::text::lemma_replace_none(seq!['C', 'a', 'r', 'd', 's', ' ', '\u{a4}', '(', 'I', ' ', 'a', 'm', ')', ' ', 'a', 't', 't', 'a', 'c', 'h', 'e', 'd', ' ', 't', 'o'], " my "@, " ¤(my) "@);
    assert(crate::text::witnessed(seq!['C', 'a', 'r', 'd', 's', ' ', '\u{a4}', '(', 'I', ' ', 'a', 'm', ')', ' ', 'a', 't', 't', 'a', 'c', 'h', 'e', 'd', ' ', 't', 'o'], ". My "@, seq![0, 0, 0, 0, 0, 0, 0, 0, 0, 0, 0, 0, 0, 0, 0, 0, 0, 0, 0, 0, 0], 0)) by { reveal_with_fuel(crate::text::witnessed, 23); }
    crate::text::lemma_witnessed_none(seq!['C', 'a', 'r', 'd', 's', ' ', '\u{a4}', '(', 'I', ' ', 'a', 'm', ')', ' ', 'a', 't', 't', 'a', 'c', 'h', 'e', 'd', ' ', 't', 'o'], ". My "@, seq![0, 0, 0, 0, 0, 0, 0, 0, 0, 0, 0, 0, 0, 0, 0, 0, 0, 0, 0, 0, 0], 0);
    crate::text::lemma_replace_none(seq!['C', 'a', 'r', 'd', 's', ' ', '\u{a4}', '(', 'I', ' ', 'a', 'm', ')', ' ', 'a', 't', 't', 'a', 'c', 'h', 'e', 'd', ' ', 't', 'o'], ". My "@, ". ¤(My) "@);
    assert(crate::text::witnessed(seq!['C', 'a', 'r', 'd', 's', ' ', '\u{a4}', '(', 'I', ' ', 'a', 'm', ')', ' ', 'a', 't', 't', 'a', 'c', 'h', 'e', 'd', ' ', 't', 'o'], " me "@, seq![0, 0, 0, 0, 0, 1, 0, 0, 0, 1, 0, 0, 0, 1, 0, 0, 0, 0, 0, 0, 0, 0], 0)) by { reveal_with_fuel(crate::text::witnessed, 24); }
    crate::text::lemma_witnessed_none(seq!['C', 'a', 'r', 'd', 's', ' ', '\u{a4}', '(', 'I', ' ', 'a', 'm', ')', ' ', 'a', 't', 't', 'a', 'c', 'h', 'e', 'd', ' ', 't', 'o'], " me "@, seq![0, 0, 0, 0, 0, 1, 0, 0, 0, 1, 0, 0, 0, 1, 0, 0, 0, 0, 0, 0, 0, 0], 0);
    crate::text::lemma_replace_none(seq!['C', 'a', 'r', 'd', 's', ' ', '\u{a4}', '(', 'I', ' ', 'a', 'm', ')', ' ', 'a', 't', 't', 'a', 'c', 'h', 'e', 'd', ' ', 't', 'o'], " me "@, " ¤(me) "@);
}

/// What group 3 makes of the middle of phrase 33.
proof fn lemma_phrase_33_group_3()
    ensures
        phrase_group_3(seq!['C', 'a', 'r', 'd', 's', ' ', '\u{a4}', '(', 'I', ' ', 'a', 'm', ')', ' ', 'a', 't', 't', 'a', 'c', 'h', 'e', 'd', ' ', 't', 'o']) == seq!['C', 'a', 'r', 'd', 's', ' ', '\u{a4}', '(', 'I', ' ', 'a', 'm', ')', ' ', 'a', 't', 't', 'a', 'c', 'h', 'e', 'd', ' ', 't', 'o'],
{
    reveal(phrase_group_3);
    reveal_strlit(" Me ");
    reveal_strlit(" Me,");
    reveal_strlit(" Me.");
    reveal_strlit(" me,");
    reveal_strlit(" me.");
    reveal_strlit(" ¤(Me) ");
    reveal_strlit(" ¤(Me),");
    reveal_strlit(" ¤(Me).");
    reveal_strlit(" ¤(me),");
    reveal_strlit(" ¤(me).");
    reveal_strlit(". I ");
    reveal_strlit(". ¤(I) ");
    reveal_strlit("\nI ");
    reveal_strlit("\n¤(I) ");
    assert(crate::text::witnessed(seq!['C', 'a', 'r', 'd', 's', ' ', '\u{a4}', '(', 'I', ' ', 'a', 'm', ')', ' ', 'a', 't', 't', 'a', 'c', 'h', 'e', 'd', ' ', 't', 'o'], " me,"@, seq![0, 0, 0, 0, 0, 1, 0, 0, 0, 1, 0, 0, 0, 1, 0, 0, 0, 0, 0, 0, 0, 0], 0)) by { reveal_with_fuel(crate::text::witnessed, 24); }
    crate::text::lemma_witnessed_none(seq!['C', 'a', 'r', 'd', 's', ' ', '\u{a4}', '(', 'I', ' ', 'a', 'm', ')', ' ', 'a', 't', 't', 'a', 'c', 'h', 'e', 'd', ' ', 't', 'o'], " me,"@, seq![0, 0, 0, 0, 0, 1, 0, 0, 0, 1, 0, 0, 0, 1, 0, 0, 0, 0, 0, 0, 0, 0], 0);
    crate::text::lemma_replace_none(seq!['C', 'a', 'r', 'd', 's', ' ', '\u{a4}', '(', 'I', ' ', 'a', 'm', ')', ' ', 'a', 't', 't', 'a', 'c', 'h', 'e', 'd', ' ', 't', 'o'], " me,"@, " ¤(me),"@);
    assert(crate::text::witnessed(seq!['C', 'a', 'r', 'd', 's', ' ', '\u{a4}', '(', 'I', ' ', 'a', 'm', ')', ' ', 'a', 't', 't', 'a', 'c', 'h', 'e', 'd', ' ', 't', 'o'], " me."@, seq![0, 0, 0, 0, 0, 1, 0, 0, 0, 1, 0, 0, 0, 1, 0, 0, 0, 0, 0, 0, 0, 0], 0)) by { reveal_with_fuel(crate::text::witnessed, 24); }
    crate::text::lemma_witnessed_none(seq!['C', 'a', 'r', 'd', 's', ' ', '\u{a4}', '(', 'I', ' ', 'a', 'm', ')', ' ', 'a', 't', 't', 'a', 'c', 'h', 'e', 'd', ' ', 't', 'o'], " me."@, seq![0, 0, 0, 0, 0, 1, 0, 0, 0, 1, 0, 0, 0, 1, 0, 0, 0, 0, 0, 0, 0, 0], 0);
    crate::text::lemma_replace_none(seq!['C', 'a', 'r', 'd', 's', ' ', '\u{a4}', '(', 'I', ' ', 'a', 'm', ')', ' ', 'a', 't', 't', 'a', 'c', 'h', 'e', 'd', ' ', 't', 'o'], " me."@, " ¤(me)."@);
    assert(crate::text::witnessed(seq!['C', 'a', 'r', 'd', 's', ' ', '\u{a4}', '(', 'I', ' ', 'a', 'm', ')', ' ', 'a', 't', 't', 'a', 'c', 'h', 'e', 'd', ' ', 't', 'o'], " Me "@, seq![0, 0, 0, 0, 0, 1, 0, 0, 0, 1, 0, 0, 0, 1, 0, 0, 0, 0, 0, 0, 0, 0], 0)) by { reveal_with_fuel(crate::text::witnessed, 24); }
    crate::text::lemma_witnessed_none(seq!['C', 'a', 'r', 'd', 's', ' ', '\u{a4}', '(', 'I', ' ', 'a', 'm', ')', ' ', 'a', 't', 't', 'a', 'c', 'h', 'e', 'd', ' ', 't', 'o'], " Me "@, seq![0, 0, 0, 0, 0, 1, 0, 0, 0, 1, 0, 0, 0, 1, 0, 0, 0, 0, 0, 0, 0, 0], 0);
    crate::text::lemma_replace_none(seq!['C', 'a', 'r', 'd', 's', ' ', '\u{a4}', '(', 'I', ' ', 'a', 'm', ')', ' ', 'a', 't', 't', 'a', 'c', 'h', 'e', 'd', ' ', 't', 'o'], " Me "@, " ¤(Me) "@);
    assert(crate::text::witnessed(seq!['C', 'a', 'r', 'd', 's', ' ', '\u{a4}', '(', 'I', ' ', 'a', 'm', ')', ' ', 'a', 't', 't', 'a', 'c', 'h', 'e', 'd', ' ', 't', 'o'], " Me,"@, seq![0, 0, 0, 0, 0, 1, 0, 0, 0, 1, 0, 0, 0, 1, 0, 0, 0, 0, 0, 0, 0, 0], 0)) by { reveal_with_fuel(crate::text::witnessed, 24); }
    crate::text::lemma_witnessed_none(seq!['C', 'a', 'r', 'd', 's', ' ', '\u{a4}', '(', 'I', ' ', 'a', 'm', ')', ' ', 'a', 't', 't', 'a', 'c', 'h', 'e', 'd', ' ', 't', 'o'], " Me,"@, seq![0, 0, 0, 0, 0, 1, 0, 0, 0, 1, 0, 0, 0, 1, 0, 0, 0, 0, 0, 0, 0, 0], 0);
    crate::text::lemma_replace_none(seq!['C', 'a', 'r', 'd', 's', ' ', '\u{a4}', '(', 'I', ' ', 'a', 'm', ')', ' ', 'a', 't', 't', 'a', 'c', 'h', 'e', 'd', ' ', 't', 'o'], " Me,"@, " ¤(Me),"@);
    assert(crate::text::witnessed(seq!['C', 'a', 'r', 'd', 's', ' ', '\u{a4}', '(', 'I', ' ', 'a', 'm', ')', ' ', 'a', 't', 't', 'a', 'c', 'h', 'e', 'd', ' ', 't', 'o'], " Me."@, seq![0, 0, 0, 0, 0, 1, 0, 0, 0, 1, 0, 0, 0, 1, 0, 0, 0, 0, 0, 0, 0, 0], 0)) by { reveal_with_fuel(crate::text::witnessed, 24); }
    crate::text::lemma_witnessed_none(seq!['C', 'a', 'r', 'd', 's', ' ', '\u{a4}', '(', 'I', ' ', 'a', 'm', ')', ' ', 'a', 't', 't', 'a', 'c', 'h', 'e', 'd', ' ', 't', 'o'], " Me."@, seq![0, 0, 0, 0, 0, 1, 0, 0, 0, 1, 0, 0, 0, 1, 0, 0, 0, 0, 0, 0, 0, 0], 0);
    crate::text::lemma_replace_none(seq!['C', 'a', 'r', 'd', 's', ' ', '\u{a4}', '(', 'I', ' ', 'a', 'm', ')', ' ', 'a', 't', 't', 'a', 'c', 'h', 'e', 'd', ' ', 't', 'o'], " Me."@, " ¤(Me)."@);
    assert(crate::text::witnessed(seq!['C', 'a', 'r', 'd', 's', ' ', '\u{a4}', '(', 'I', ' ', 'a', 'm', ')', ' ', 'a', 't', 't', 'a', 'c', 'h', 'e', 'd', ' ', 't', 'o'], "\nI "@, seq![0, 0, 0, 0, 0, 0, 0, 0, 0, 0, 0, 0, 0, 0, 0, 0, 0, 0, 0, 0, 0, 0, 0], 0)) by { reveal_with_fuel(crate::text::witnessed, 25); }
    crate::text::lemma_witnessed_none(seq!['C', 'a', 'r', 'd', 's', ' ', '\u{a4}', '(', 'I', ' ', 'a', 'm', ')', ' ', 'a', 't', 't', 'a', 'c', 'h', 'e', 'd', ' ', 't', 'o'], "\nI "@, seq![0, 0, 0, 0, 0, 0, 0, 0, 0, 0, 0, 0, 0, 0, 0, 0, 0, 0, 0, 0, 0, 0, 0], 0);
    crate::text::lemma_replace_none(seq!['C', 'a', 'r', 'd', 's', ' ', '\u{a4}', '(', 'I', ' ', 'a', 'm', ')', ' ', 'a', 't', 't', 'a', 'c', 'h', 'e', 'd', ' ', 't', 'o'], "\nI "@, "\n¤(I) "@);
    assert(crate::text::witnessed(seq!['C', 'a', 'r', 'd', 's', ' ', '\u{a4}', '(', 'I', ' ', 'a', 'm', ')', ' ', 'a', 't', 't', 'a', 'c', 'h', 'e', 'd', ' ', 't', 'o'], ". I "@, seq![0, 0, 0, 0, 0, 0, 0, 0, 0, 0, 0, 0, 0, 0, 0, 0, 0, 0, 0, 0, 0, 0], 0)) by { reveal_with_fuel(crate::text::witnessed, 24); }
    crate::text::lemma_witnessed_none(seq!['C', 'a', 'r', 'd', 's', ' ', '\u{a4}', '(', 'I', ' ', 'a', 'm', ')', ' ', 'a', 't', 't', 'a', 'c', 'h', 'e', 'd', ' ', 't', 'o'], ". I "@, seq![0, 0, 0, 0, 0, 0, 0, 0, 0, 0, 0, 0, 0, 0, 0, 0, 0, 0, 0, 0, 0, 0], 0);
    crate::text::lemma_replace_none(seq!['C', 'a', 'r', 'd', 's', ' ', '\u{a4}', '(', 'I', ' ', 'a', 'm', ')', ' ', 'a', 't', 't', 'a', 'c', 'h', 'e', 'd', ' ', 't', 'o'], ". I "@, ". ¤(I) "@);
}

/// What group 4 makes of the middle of phrase 33.
proof fn lemma_phrase_33_group_4()
    ensures
        phrase_group_4(seq!['C', 'a', 'r', 'd', 's', ' ', '\u{a4}', '(', 'I', ' ', 'a', 'm', ')', ' ', 'a', 't', 't', 'a', 'c', 'h', 'e', 'd', ' ', 't', 'o']) == seq!['T', 'h', 'e', ' ', 'c', 'a', 'r', 'd', ' ', '\u{a4}', '(', 'I', ' ', 'a', 'm', ')', ' ', 'a', 't', 't', 'a', 'c', 'h', 'e', 'd', ' ', 't', 'o'],
{
    reveal(phrase_group_4);
    reveal_strlit(" I ");
    reveal_strlit(" I,");
    reveal_strlit(" I.");
    reveal_strlit(" ¤(i) ");
    reveal_strlit(" ¤(i),");
    reveal_strlit(" ¤(i).");
    reveal_strlit(". I,");
    reveal_strlit(". I.");
    reveal_strlit(". ¤(I),");
    reveal_strlit(". ¤(I). ");
    reveal_strlit("Cards ¤(I am) attached to");
    reveal_strlit("The card ¤(I am) attached to");
    reveal_strlit("cards ¤(I am) attached to");
    reveal_strlit("the card ¤(I am) attached to");
    assert(crate::text::witnessed(seq!['C', 'a', 'r', 'd', 's', ' ', '\u{a4}', '(', 'I', ' ', 'a', 'm', ')', ' ', 'a', 't', 't', 'a', 'c', 'h', 'e', 'd', ' ', 't', 'o'], ". I,"@, seq![0, 0, 0, 0, 0, 0, 0, 0, 0, 0, 0, 0, 0, 0, 0, 0, 0, 0, 0, 0, 0, 0], 0)) by { reveal_with_fuel(crate::text::witnessed, 24); }
    crate::text::lemma_witnessed_none(seq!['C', 'a', 'r', 'd', 's', ' ', '\u{a4}', '(', 'I', ' ', 'a', 'm', ')', ' ', 'a', 't', 't', 'a', 'c', 'h', 'e', 'd', ' ', 't', 'o'], ". I,"@, seq![0, 0, 0, 0, 0, 0, 0, 0, 0, 0, 0, 0, 0, 0, 0, 0, 0, 0, 0, 0, 0, 0], 0);
    crate::text::lemma_replace_none(seq!['C', 'a', 'r', 'd', 's', ' ', '\u{a4}', '(', 'I', ' ', 'a', 'm', ')', ' ', 'a', 't', 't', 'a', 'c', 'h', 'e', 'd', ' ', 't', 'o'], ". I,"@, ". ¤(I),"@);
    assert(crate::text::witnessed(seq!['C', 'a', 'r', 'd', 's', ' ', '\u{a4}', '(', 'I', ' ', 'a', 'm', ')', ' ', 'a', 't', 't', 'a', 'c', 'h', 'e', 'd', ' ', 't', 'o'], ". I."@, seq![0, 0, 0, 0, 0, 0, 0, 0, 0, 0, 0, 0, 0, 0, 0, 0, 0, 0, 0, 0, 0, 0], 0)) by { reveal_with_fuel(crate::text::witnessed, 24); }
    crate::text::lemma_witnessed_none(seq!['C', 'a', 'r', 'd', 's', ' ', '\u{a4}', '(', 'I', ' ', 'a', 'm', ')', ' ', 'a', 't', 't', 'a', 'c', 'h', 'e', 'd', ' ', 't', 'o'], ". I."@, seq![0, 0, 0, 0, 0, 0, 0, 0, 0, 0, 0, 0, 0, 0, 0, 0, 0, 0, 0, 0, 0, 0], 0);
    crate::text::lemma_replace_none(seq!['C', 'a', 'r', 'd', 's', ' ', '\u{a4}', '(', 'I', ' ', 'a', 'm', ')', ' ', 'a', 't', 't', 'a', 'c', 'h', 'e', 'd', ' ', 't', 'o'], ". I."@, ". ¤(I). "@);
    assert(crate::text::witnessed(seq!['C', 'a', 'r', 'd', 's', ' ', '\u{a4}', '(', 'I', ' ', 'a', 'm', ')', ' ', 'a', 't', 't', 'a', 'c', 'h', 'e', 'd', ' ', 't', 'o'], " I "@, seq![0, 0, 0, 0, 0, 1, 0, 0, 0, 1, 0, 0, 0, 1, 0, 0, 0, 0, 0, 0, 0, 0, 1], 0)) by { reveal_with_fuel(crate::text::witnessed, 25); }
    crate::text::lemma_witnessed_none(seq!['C', 'a', 'r', 'd', 's', ' ', '\u{a4}', '(', 'I', ' ', 'a', 'm', ')', ' ', 'a', 't', 't', 'a', 'c', 'h', 'e', 'd', ' ', 't', 'o'], " I "@, seq![0, 0, 0, 0, 0, 1, 0, 0, 0, 1, 0, 0, 0, 1, 0, 0, 0, 0, 0, 0, 0, 0, 1], 0);
    crate::text::lemma_replace_none(seq!['C', 'a', 'r', 'd', 's', ' ', '\u{a4}', '(', 'I', ' ', 'a', 'm', ')', ' ', 'a', 't', 't', 'a', 'c', 'h', 'e', 'd', ' ', 't', 'o'], " I "@, " ¤(i) "@);
    assert(crate::text::witnessed(seq!['C', 'a', 'r', 'd', 's', ' ', '\u{a4}', '(', 'I', ' ', 'a', 'm', ')', ' ', 'a', 't', 't', 'a', 'c', 'h', 'e', 'd', ' ', 't', 'o'], " I,"@, seq![0, 0, 0, 0, 0, 1, 0, 0, 0, 1, 0, 0, 0, 1, 0, 0, 0, 0, 0, 0, 0, 0, 1], 0)) by { reveal_with_fuel(crate::text::witnessed, 25); }
    crate::text::lemma_witnessed_none(seq!['C', 'a', 'r', 'd', 's', ' ', '\u{a4}', '(', 'I', ' ', 'a', 'm', ')', ' ', 'a', 't', 't', 'a', 'c', 'h', 'e', 'd', ' ', 't', 'o'], " I,"@, seq![0, 0, 0, 0, 0, 1, 0, 0, 0, 1, 0, 0, 0, 1, 0, 0, 0, 0, 0, 0, 0, 0, 1], 0);
    crate::text::lemma_replace_none(seq!['C', 'a', 'r', 'd', 's', ' ', '\u{a4}', '(', 'I', ' ', 'a', 'm', ')', ' ', 'a', 't', 't', 'a', 'c', 'h', 'e', 'd', ' ', 't', 'o'], " I,"@, " ¤(i),"@);
    assert(crate::text::witnessed(seq!['C', 'a', 'r', 'd', 's', ' ', '\u{a4}', '(', 'I', ' ', 'a', 'm', ')', ' ', 'a', 't', 't', 'a', 'c', 'h', 'e', 'd', ' ', 't', 'o'], " I."@, seq![0, 0, 0, 0, 0, 1, 0, 0, 0, 1, 0, 0, 0, 1, 0, 0, 0, 0, 0, 0, 0, 0, 1], 0)) by { reveal_with_fuel(crate::text::witnessed, 25); }
    crate::text::lemma_witnessed_none(seq!['C', 'a', 'r', 'd', 's', ' ', '\u{a4}', '(', 'I', ' ', 'a', 'm', ')', ' ', 'a', 't', 't', 'a', 'c', 'h', 'e', 'd', ' ', 't', 'o'], " I."@, seq![0, 0, 0, 0, 0, 1, 0, 0, 0, 1, 0, 0, 0, 1, 0, 0, 0, 0, 0, 0, 0, 0, 1], 0);
    crate::text::lemma_replace_none(seq!['C', 'a', 'r', 'd', 's', ' ', '\u{a4}', '(', 'I', ' ', 'a', 'm', ')', ' ', 'a', 't', 't', 'a', 'c', 'h', 'e', 'd', ' ', 't', 'o'], " I."@, " ¤(i)."@);
    assert(crate::text::witnessed_until(seq!['C', 'a', 'r', 'd', 's', ' ', '\u{a4}', '(', 'I', ' ', 'a', 'm', ')', ' ', 'a', 't', 't', 'a', 'c', 'h', 'e', 'd', ' ', 't', 'o'], "Cards ¤(I am) attached to"@, seq![], 0, 0)) by { reveal_with_fuel(crate::text::witnessed_until, 2); }
    assert(crate::text::witnessed(seq!['C', 'a', 'r', 'd', 's', ' ', '\u{a4}', '(', 'I', ' ', 'a', 'm', ')', ' ', 'a', 't', 't', 'a', 'c', 'h', 'e', 'd', ' ', 't', 'o'], "Cards ¤(I am) attached to"@, seq![0, 0, 0, 0, 0, 0, 0, 0, 0, 0, 0, 0, 0, 0, 0, 0, 0, 0, 0, 0, 0, 0, 0, 0, 0], 25)) by { reveal_with_fuel(crate::text::witnessed, 27); }
    assert(seq!['C', 'a', 'r', 'd', 's', ' ', '\u{a4}', '(', 'I', ' ', 'a', 'm', ')', ' ', 'a', 't', 't', 'a', 'c', 'h', 'e', 'd', ' ', 't', 'o'].subrange(0, 25) =~= "Cards ¤(I am) attached to"@);
    crate::text::lemma_replace_once(seq!['C', 'a', 'r', 'd', 's', ' ', '\u{a4}', '(', 'I', ' ', 'a', 'm', ')', ' ', 'a', 't', 't', 'a', 'c', 'h', 'e', 'd', ' ', 't', 'o'], "Cards ¤(I am) attached to"@, "The card ¤(I am) attached to"@, 0, seq![], seq![0, 0, 0, 0, 0, 0, 0, 0, 0, 0, 0, 0, 0, 0, 0, 0, 0, 0, 0, 0, 0, 0, 0, 0, 0]);
    assert(seq!['C', 'a', 'r', 'd', 's', ' ', '\u{a4}', '(', 'I', ' ', 'a', 'm', ')', ' ', 'a', 't', 't', 'a', 'c', 'h', 'e', 'd', ' ', 't', 'o'].subrange(0, 0) + "The card ¤(I am) attached to"@ + seq!['C', 'a', 'r', 'd', 's', ' ', '\u{a4}', '(', 'I', ' ', 'a', 'm', ')', ' ', 'a', 't', 't', 'a', 'c', 'h', 'e', 'd', ' ', 't', 'o'].subrange(25, 25) =~= seq!['T', 'h', 'e', ' ', 'c', 'a', 'r', 'd', ' ', '\u{a4}', '(', 'I', ' ', 'a', 'm', ')', ' ', 'a', 't', 't', 'a', 'c', 'h', 'e', 'd', ' ', 't', 'o']);
    assert(crate::text::witnessed(seq!['T', 'h', 'e', ' ', 'c', 'a', 'r', 'd', ' ', '\u{a4}', '(', 'I', ' ', 'a', 'm', ')', ' ', 'a', 't', 't', 'a', 'c', 'h', 'e', 'd', ' ', 't', 'o'], "cards ¤(I am) attached to"@, seq![0, 0, 0, 0], 0)) by { reveal_with_fuel(crate::text::witnessed, 6); }
    crate::text::lemma_witnessed_none(seq!['T', 'h', 'e', ' ', 'c', 'a', 'r', 'd', ' ', '\u{a4}', '(', 'I', ' ', 'a', 'm', ')', ' ', 'a', 't', 't', 'a', 'c', 'h', 'e', 'd', ' ', 't', 'o'], "cards ¤(I am) attached to"@, seq![0, 0, 0, 0], 0);
    crate::text::lemma_replace_none(seq!['T', 'h', 'e', ' ', 'c', 'a', 'r', 'd', ' ', '\u{a4}', '(', 'I', ' ', 'a', 'm', ')', ' ', 'a', 't', 't', 'a', 'c', 'h', 'e', 'd', ' ', 't', 'o'], "cards ¤(I am) attached to"@, "the card ¤(I am) attached to"@);
}

/// Between digits, phrase 33 becomes what the card text makes of it.
proof fn lemma_phrase_33(x: Seq<char>, y: Seq<char>)
    requires
        all_digits(x),
        all_digits(y),
        trim(x + "Cards ¤(I am) attached to"@ + y) == x + "Cards ¤(I am) attached to"@ + y,
    ensures
        phrase_commands(x + "Cards ¤(I am) attached to"@ + y) == Some(x + seq!['T', 'h', 'e', ' ', 'c', 'a', 'r', 'd', ' ', '\u{a4}', '(', 'I', ' ', 'a', 'm', ')', ' ', 'a', 't', 't', 'a', 'c', 'h', 'e', 'd', ' ', 't', 'o'] + y),
{
    reveal_strlit("Cards ¤(I am) attached to");
    assert("Cards ¤(I am) attached to"@ =~= seq!['C', 'a', 'r', 'd', 's', ' ', '\u{a4}', '(', 'I', ' ', 'a', 'm', ')', ' ', 'a', 't', 't', 'a', 'c', 'h', 'e', 'd', ' ', 't', 'o']);
    reveal_strlit("Card with");
    reveal_strlit("card with");
    reveal_strlit("Cards with");
    reveal_strlit("cards with");
    let m0 = seq!['C', 'a', 'r', 'd', 's', ' ', '\u{a4}', '(', 'I', ' ', 'a', 'm', ')', ' ', 'a', 't', 't', 'a', 'c', 'h', 'e', 'd', ' ', 't', 'o'];
    lemma_group_framed_0(x, m0, y);
    lemma_phrase_33_group_0();
    let m1 = phrase_group_0(m0);
    lemma_group_framed_1(x, m1, y);
    lemma_phrase_33_group_1();
    let m2 = phrase_group_1(m1);
    lemma_group_framed_2(x, m2, y);
    lemma_phrase_33_group_2();
    let m3 = phrase_group_2(m2);
    lemma_group_framed_3(x, m3, y);
    lemma_phrase_33_group_3();
    let m4 = phrase_group_3(m3);
    lemma_group_framed_4(x, m4, y);
    lemma_phrase_33_group_4();
    let m5 = phrase_group_4(m4);
    assert(crate::text::witnessed(seq!['T', 'h', 'e', ' ', 'c', 'a', 'r', 'd', ' ', '\u{a4}', '(', 'I', ' ', 'a', 'm', ')', ' ', 'a', 't', 't', 'a', 'c', 'h', 'e', 'd', ' ', 't', 'o'], "Card with"@, seq![0, 0, 0, 0, 0, 0, 0, 0, 0, 0, 0, 0, 0, 0, 0, 0, 0, 0, 0, 0], 0)) by { reveal_with_fuel(crate::text::witnessed, 22); }
    crate::text::lemma_witnessed_none(seq!['T', 'h', 'e', ' ', 'c', 'a', 'r', 'd', ' ', '\u{a4}', '(', 'I', ' ', 'a', 'm', ')', ' ', 'a', 't', 't', 'a', 'c', 'h', 'e', 'd', ' ', 't', 'o'], "Card with"@, seq![0, 0, 0, 0, 0, 0, 0, 0, 0, 0, 0, 0, 0, 0, 0, 0, 0, 0, 0, 0], 0);
    assert(digit_free("Card with"@));
    crate::text::lemma_replace_framed(x, seq!['T', 'h', 'e', ' ', 'c', 'a', 'r', 'd', ' ', '\u{a4}', '(', 'I', ' ', 'a', 'm', ')', ' ', 'a', 't', 't', 'a', 'c', 'h', 'e', 'd', ' ', 't', 'o'], y, "Card with"@, "Card with"@);
    assert(with_marker(WithPhrase::Card) == "Card with"@);
    assert(crate::text::witnessed(seq!['T', 'h', 'e', ' ', 'c', 'a', 'r', 'd', ' ', '\u{a4}', '(', 'I', ' ', 'a', 'm', ')', ' ', 'a', 't', 't', 'a', 'c', 'h', 'e', 'd', ' ', 't', 'o'], "card with"@, seq![0, 0, 0, 0, 5, 0, 0, 0, 0, 0, 0, 0, 0, 0, 0, 0, 0, 0, 0, 0], 0)) by { reveal_with_fuel(crate::text::witnessed, 22); }
    crate::text::lemma_witnessed_none(seq!['T', 'h', 'e', ' ', 'c', 'a', 'r', 'd', ' ', '\u{a4}', '(', 'I', ' ', 'a', 'm', ')', ' ', 'a', 't', 't', 'a', 'c', 'h', 'e', 'd', ' ', 't', 'o'], "card with"@, seq![0, 0, 0, 0, 5, 0, 0, 0, 0, 0, 0, 0, 0, 0, 0, 0, 0, 0, 0, 0], 0);
    assert(digit_free("card with"@));
    crate::text::lemma_replace_framed(x, seq!['T', 'h', 'e', ' ', 'c', 'a', 'r', 'd', ' ', '\u{a4}', '(', 'I', ' ', 'a', 'm', ')', ' ', 'a', 't', 't', 'a', 'c', 'h', 'e', 'd', ' ', 't', 'o'], y, "card with"@, "card with"@);
    assert(with_marker(WithPhrase::CardLower) == "card with"@);
    assert(crate::text::witnessed(seq!['T', 'h', 'e', ' ', 'c', 'a', 'r', 'd', ' ', '\u{a4}', '(', 'I', ' ', 'a', 'm', ')', ' ', 'a', 't', 't', 'a', 'c', 'h', 'e', 'd', ' ', 't', 'o'], "Cards with"@, seq![0, 0, 0, 0, 0, 0, 0, 0, 0, 0, 0, 0, 0, 0, 0, 0, 0, 0, 0], 0)) by { reveal_with_fuel(crate::text::witnessed, 21); }
    crate::text::lemma_witnessed_none(seq!['T', 'h', 'e', ' ', 'c', 'a', 'r', 'd', ' ', '\u{a4}', '(', 'I', ' ', 'a', 'm', ')', ' ', 'a', 't', 't', 'a', 'c', 'h', 'e', 'd', ' ', 't', 'o'], "Cards with"@, seq![0, 0, 0, 0, 0, 0, 0, 0, 0, 0, 0, 0, 0, 0, 0, 0, 0, 0, 0], 0);
    assert(digit_free("Cards with"@));
    crate::text::lemma_replace_framed(x, seq!['T', 'h', 'e', ' ', 'c', 'a', 'r', 'd', ' ', '\u{a4}', '(', 'I', ' ', 'a', 'm', ')', ' ', 'a', 't', 't', 'a', 'c', 'h', 'e', 'd', ' ', 't', 'o'], y, "Cards with"@, "Cards with"@);
    assert(with_marker(WithPhrase::Cards) == "Cards with"@);
    assert(crate::text::witnessed(seq!['T', 'h', 'e', ' ', 'c', 'a', 'r', 'd', ' ', '\u{a4}', '(', 'I', ' ', 'a', 'm', ')', ' ', 'a', 't', 't', 'a', 'c', 'h', 'e', 'd', ' ', 't', 'o'], "cards with"@, seq![0, 0, 0, 0, 4, 0, 0, 0, 0, 0, 0, 0, 0, 0, 0, 0, 0, 0, 0], 0)) by { reveal_with_fuel(crate::text::witnessed, 21); }
    crate::text::lemma_witnessed_none(seq!['T', 'h', 'e', ' ', 'c', 'a', 'r', 'd', ' ', '\u{a4}', '(', 'I', ' ', 'a', 'm', ')', ' ', 'a', 't', 't', 'a', 'c', 'h', 'e', 'd', ' ', 't', 'o'], "cards with"@, seq![0, 0, 0, 0, 4, 0, 0, 0, 0, 0, 0, 0, 0, 0, 0, 0, 0, 0, 0], 0);
    assert(digit_free("cards with"@));
    crate::text::lemma_replace_framed(x, seq!['T', 'h', 'e', ' ', 'c', 'a', 'r', 'd', ' ', '\u{a4}', '(', 'I', ' ', 'a', 'm', ')', ' ', 'a', 't', 't', 'a', 'c', 'h', 'e', 'd', ' ', 't', 'o'], y, "cards with"@, "cards with"@);
    assert(with_marker(WithPhrase::CardsLower) == "cards with"@);
}

/// What group 0 makes of the middle of phrase 34.
proof fn lemma_phrase_34_group_0()
    ensures
        phrase_group_0(seq!['c', 'a', 'r', 'd', 's', ' ', '\u{a4}', '(', 'I', ' ', 'a', 'm', ')', ' ', 'a', 't', 't', 'a', 'c', 'h', 'e', 'd', ' ', 't', 'o']) == seq!['c', 'a', 'r', 'd', 's', ' ', '\u{a4}', '(', 'I', ' ', 'a', 'm', ')', ' ', 'a', 't', 't', 'a', 'c', 'h', 'e', 'd', ' ', 't', 'o'],
{
    reveal(phrase_group_0);
    reveal_strlit(" ");
    reveal_strlit("  ");
    reveal_strlit(" mana ");
    reveal_strlit(" ¤(mana) ");
    reveal_strlit("Boost");
    reveal_strlit("Experience");
    reveal_strlit("\n ");
    reveal_strlit("boost");
    reveal_strlit("experience");
    reveal_strlit("¤(Boost)");
    reveal_strlit("¤(Xp)");
    reveal_strlit("¤(boost)");
    reveal_strlit("¤(xp)");
    assert(crate::text::witnessed(seq!['c', 'a', 'r', 'd', 's', ' ', '\u{a4}', '(', 'I', ' ', 'a', 'm', ')', ' ', 'a', 't', 't', 'a', 'c', 'h', 'e', 'd', ' ', 't', 'o'], "\n "@, seq![0, 0, 0, 0, 0, 0, 0, 0, 0, 0, 0, 0, 0, 0, 0, 0, 0, 0, 0, 0, 0, 0, 0, 0], 0)) by { reveal_with_fuel(crate::text::witnessed, 26); }
    crate::text::lemma_witnessed_none(seq!['c', 'a', 'r', 'd', 's', ' ', '\u{a4}', '(', 'I', ' ', 'a', 'm', ')', ' ', 'a', 't', 't', 'a', 'c', 'h', 'e', 'd', ' ', 't', 'o'], "\n "@, seq![0, 0, 0, 0, 0, 0, 0, 0, 0, 0, 0, 0, 0, 0, 0, 0, 0, 0, 0, 0, 0, 0, 0, 0], 0);
    crate::text::lemma_replace_none(seq!['c', 'a', 'r', 'd', 's', ' ', '\u{a4}', '(', 'I', ' ', 'a', 'm', ')', ' ', 'a', 't', 't', 'a', 'c', 'h', 'e', 'd', ' ', 't', 'o'], "\n "@, " "@);
    assert(crate::text::witnessed(seq!['c', 'a', 'r', 'd', 's', ' ', '\u{a4}', '(', 'I', ' ', 'a', 'm', ')', ' ', 'a', 't', 't', 'a', 'c', 'h', 'e', 'd', ' ', 't', 'o'], "  "@, seq![0, 0, 0, 0, 0, 1, 0, 0, 0, 1, 0, 0, 0, 1, 0, 0, 0, 0, 0, 0, 0, 0, 1, 0], 0)) by { reveal_with_fuel(crate::text::witnessed, 26); }
    crate::text::lemma_witnessed_none(seq!['c', 'a', 'r', 'd', 's', ' ', '\u{a4}', '(', 'I', ' ', 'a', 'm', ')', ' ', 'a', 't', 't', 'a', 'c', 'h', 'e', 'd', ' ', 't', 'o'], "  "@, seq![0, 0, 0, 0, 0, 1, 0, 0, 0, 1, 0, 0, 0, 1, 0, 0, 0, 0, 0, 0, 0, 0, 1, 0], 0);
    crate::text::lemma_replace_none(seq!['c', 'a', 'r', 'd', 's', ' ', '\u{a4}', '(', 'I', ' ', 'a', 'm', ')', ' ', 'a', 't', 't', 'a', 'c', 'h', 'e', 'd', ' ', 't', 'o'], "  "@, " "@);
    assert(crate::text::witnessed(seq!['c', 'a', 'r', 'd', 's', ' ', '\u{a4}', '(', 'I', ' ', 'a', 'm', ')', ' ', 'a', 't', 't', 'a', 'c', 'h', 'e', 'd', ' ', 't', 'o'], "Boost"@, seq![0, 0, 0, 0, 0, 0, 0, 0, 0, 0, 0, 0, 0, 0, 0, 0, 0, 0, 0, 0, 0], 0)) by { reveal_with_fuel(crate::text::witnessed, 23); }
    crate::text::lemma_witnessed_none(seq!['c', 'a', 'r', 'd', 's', ' ', '\u{a4}', '(', 'I', ' ', 'a', 'm', ')', ' ', 'a', 't', 't', 'a', 'c', 'h', 'e', 'd', ' ', 't', 'o'], "Boost"@, seq![0, 0, 0, 0, 0, 0, 0, 0, 0, 0, 0, 0, 0, 0, 0, 0, 0, 0, 0, 0, 0], 0);
    crate::text::lemma_replace_none(seq!['c', 'a', 'r', 'd', 's', ' ', '\u{a4}', '(', 'I', ' ', 'a', 'm', ')', ' ', 'a', 't', 't', 'a', 'c', 'h', 'e', 'd', ' ', 't', 'o'], "Boost"@, "¤(Boost)"@);
    assert(crate::text::witnessed(seq!['c', 'a', 'r', 'd', 's', ' ', '\u{a4}', '(', 'I', ' ', 'a', 'm', ')', ' ', 'a', 't', 't', 'a', 'c', 'h', 'e', 'd', ' ', 't', 'o'], "boost"@, seq![0, 0, 0, 0, 0, 0, 0, 0, 0, 0, 0, 0, 0, 0, 0, 0, 0, 0, 0, 0, 0], 0)) by { reveal_with_fuel(crate::text::witnessed, 23); }
    crate::text::lemma_witnessed_none(seq!['c', 'a', 'r', 'd', 's', ' ', '\u{a4}', '(', 'I', ' ', 'a', 'm', ')', ' ', 'a', 't', 't', 'a', 'c', 'h', 'e', 'd', ' ', 't', 'o'], "boost"@, seq![0, 0, 0, 0, 0, 0, 0, 0, 0, 0, 0, 0, 0, 0, 0, 0, 0, 0, 0, 0, 0], 0);
    crate::text::lemma_replace_none(seq!['c', 'a', 'r', 'd', 's', ' ', '\u{a4}', '(', 'I', ' ', 'a', 'm', ')', ' ', 'a', 't', 't', 'a', 'c', 'h', 'e', 'd', ' ', 't', 'o'], "boost"@, "¤(boost)"@);
    assert(crate::text::witnessed(seq!['c', 'a', 'r', 'd', 's', ' ', '\u{a4}', '(', 'I', ' ', 'a', 'm', ')', ' ', 'a', 't', 't', 'a', 'c', 'h', 'e', 'd', ' ', 't', 'o'], "experience"@, seq![0, 0, 0, 0, 0, 0, 0, 0, 0, 0, 0, 0, 0, 0, 0, 0], 0)) by { reveal_with_fuel(crate::text::witnessed, 18); }
    crate::text::lemma_witnessed_none(seq!['c', 'a', 'r', 'd', 's', ' ', '\u{a4}', '(', 'I', ' ', 'a', 'm', ')', ' ', 'a', 't', 't', 'a', 'c', 'h', 'e', 'd', ' ', 't', 'o'], "experience"@, seq![0, 0, 0, 0, 0, 0, 0, 0, 0, 0, 0, 0, 0, 0, 0, 0], 0);
    crate::text::lemma_replace_none(seq!['c', 'a', 'r', 'd', 's', ' ', '\u{a4}', '(', 'I', ' ', 'a', 'm', ')', ' ', 'a', 't', 't', 'a', 'c', 'h', 'e', 'd', ' ', 't', 'o'], "experience"@, "¤(xp)"@);
    assert(crate::text::witnessed(seq!['c', 'a', 'r', 'd', 's', ' ', '\u{a4}', '(', 'I', ' ', 'a', 'm', ')', ' ', 'a', 't', 't', 'a', 'c', 'h', 'e', 'd', ' ', 't', 'o'], "Experience"@, seq![0, 0, 0, 0, 0, 0, 0, 0, 0, 0, 0, 0, 0, 0, 0, 0], 0)) by { reveal_with_fuel(crate::text::witnessed, 18); }
    crate::text::lemma_witnessed_none(seq!['c', 'a', 'r', 'd', 's', ' ', '\u{a4}', '(', 'I', ' ', 'a', 'm', ')', ' ', 'a', 't', 't', 'a', 'c', 'h', 'e', 'd', ' ', 't', 'o'], "Experience"@, seq![0, 0, 0, 0, 0, 0, 0, 0, 0, 0, 0, 0, 0, 0, 0, 0], 0);
    crate::text::lemma_replace_none(seq!['c', 'a', 'r', 'd', 's', ' ', '\u{a4}', '(', 'I', ' ', 'a', 'm', ')', ' ', 'a', 't', 't', 'a', 'c', 'h', 'e', 'd', ' ', 't', 'o'], "Experience"@, "¤(Xp)"@);
    assert(crate::text::witnessed(seq!['c', 'a', 'r', 'd', 's', ' ', '\u{a4}', '(', 'I', ' ', 'a', 'm', ')', ' ', 'a', 't', 't', 'a', 'c', 'h', 'e', 'd', ' ', 't', 'o'], " mana "@, seq![0, 0, 0, 0, 0, 1, 0, 0, 0, 1, 0, 0, 0, 1, 0, 0, 0, 0, 0, 0], 0)) by { reveal_with_fuel(crate::text::witnessed, 22); }
    crate::text::lemma_witnessed_none(seq!['c', 'a', 'r', 'd', 's', ' ', '\u{a4}', '(', 'I', ' ', 'a', 'm', ')', ' ', 'a', 't', 't', 'a', 'c', 'h', 'e', 'd', ' ', 't', 'o'], " mana "@, seq![0, 0, 0, 0, 0, 1, 0, 0, 0, 1, 0, 0, 0, 1, 0, 0, 0, 0, 0, 0], 0);
    crate::text::lemma_replace_none(seq!['c', 'a', 'r', 'd', 's', ' ', '\u{a4}', '(', 'I', ' ', 'a', 'm', ')', ' ', 'a', 't', 't', 'a', 'c', 'h', 'e', 'd', ' ', 't', 'o'], " mana "@, " ¤(mana) "@);
}

/// What group 1 makes of the middle of phrase 34.
proof fn lemma_phrase_34_group_1()
    ensures
        phrase_group_1(seq!['c', 'a', 'r', 'd', 's', ' ', '\u{a4}', '(', 'I', ' ', 'a', 'm', ')', ' ', 'a', 't', 't', 'a', 'c', 'h', 'e', 'd', ' ', 't', 'o']) == seq!['c', 'a', 'r', 'd', 's', ' ', '\u{a4}', '(', 'I', ' ', 'a', 'm', ')', ' ', 'a', 't', 't', 'a', 'c', 'h', 'e', 'd', ' ', 't', 'o'],
{
    reveal(phrase_group_1);
    reveal_strlit(" Mana ");
    reveal_strlit(" Mana,");
    reveal_strlit(" Mana.");
    reveal_strlit(" mana,");
    reveal_strlit(" mana.");
    reveal_strlit(" ¤(Mana) ");
    reveal_strlit(" ¤(Mana),");
    reveal_strlit(" ¤(Mana).");
    reveal_strlit(" ¤(mana),");
    reveal_strlit(" ¤(mana).");
    reveal_strlit("I am");
    reveal_strlit("I'm");
    reveal_strlit("I’m");
    assert(crate::text::witnessed(seq!['c', 'a', 'r', 'd', 's', ' ', '\u{a4}', '(', 'I', ' ', 'a', 'm', ')', ' ', 'a', 't', 't', 'a', 'c', 'h', 'e', 'd', ' ', 't', 'o'], " mana."@, seq![0, 0, 0, 0, 0, 1, 0, 0, 0, 1, 0, 0, 0, 1, 0, 0, 0, 0, 0, 0], 0)) by { reveal_with_fuel(crate::text::witnessed, 22); }
    crate::text::lemma_witnessed_none(seq!['c', 'a', 'r', 'd', 's', ' ', '\u{a4}', '(', 'I', ' ', 'a', 'm', ')', ' ', 'a', 't', 't', 'a', 'c', 'h', 'e', 'd', ' ', 't', 'o'], " mana."@, seq![0, 0, 0, 0, 0, 1, 0, 0, 0, 1, 0, 0, 0, 1, 0, 0, 0, 0, 0, 0], 0);
    crate::text::lemma_replace_none(seq!['c', 'a', 'r', 'd', 's', ' ', '\u{a4}', '(', 'I', ' ', 'a', 'm', ')', ' ', 'a', 't', 't', 'a', 'c', 'h', 'e', 'd', ' ', 't', 'o'], " mana."@, " ¤(mana)."@);
    assert(crate::text::witnessed(seq!['c', 'a', 'r', 'd', 's', ' ', '\u{a4}', '(', 'I', ' ', 'a', 'm', ')', ' ', 'a', 't', 't', 'a', 'c', 'h', 'e', 'd', ' ', 't', 'o'], " mana,"@, seq![0, 0, 0, 0, 0, 1, 0, 0, 0, 1, 0, 0, 0, 1, 0, 0, 0, 0, 0, 0], 0)) by { reveal_with_fuel(crate::text::witnessed, 22); }
    crate::text::lemma_witnessed_none(seq!['c', 'a', 'r', 'd', 's', ' ', '\u{a4}', '(', 'I', ' ', 'a', 'm', ')', ' ', 'a', 't', 't', 'a', 'c', 'h', 'e', 'd', ' ', 't', 'o'], " mana,"@, seq![0, 0, 0, 0, 0, 1, 0, 0, 0, 1, 0, 0, 0, 1, 0, 0, 0, 0, 0, 0], 0);
    crate::text::lemma_replace_none(seq!['c', 'a', 'r', 'd', 's', ' ', '\u{a4}', '(', 'I', ' ', 'a', 'm', ')', ' ', 'a', 't', 't', 'a', 'c', 'h', 'e', 'd', ' ', 't', 'o'], " mana,"@, " ¤(mana),"@);
    assert(crate::text::witnessed(seq!['c', 'a', 'r', 'd', 's', ' ', '\u{a4}', '(', 'I', ' ', 'a', 'm', ')', ' ', 'a', 't', 't', 'a', 'c', 'h', 'e', 'd', ' ', 't', 'o'], " Mana "@, seq![0, 0, 0, 0, 0, 1, 0, 0, 0, 1, 0, 0, 0, 1, 0, 0, 0, 0, 0, 0], 0)) by { reveal_with_fuel(crate::text::witnessed, 22); }
    crate::text::lemma_witnessed_none(seq!['c', 'a', 'r', 'd', 's', ' ', '\u{a4}', '(', 'I', ' ', 'a', 'm', ')', ' ', 'a', 't', 't', 'a', 'c', 'h', 'e', 'd', ' ', 't', 'o'], " Mana "@, seq![0, 0, 0, 0, 0, 1, 0, 0, 0, 1, 0, 0, 0, 1, 0, 0, 0, 0, 0, 0], 0);
    crate::text::lemma_replace_none(seq!['c', 'a', 'r', 'd', 's', ' ', '\u{a4}', '(', 'I', ' ', 'a', 'm', ')', ' ', 'a', 't', 't', 'a', 'c', 'h', 'e', 'd', ' ', 't', 'o'], " Mana "@, " ¤(Mana) "@);
    assert(crate::text::witnessed(seq!['c', 'a', 'r', 'd', 's', ' ', '\u{a4}', '(', 'I', ' ', 'a', 'm', ')', ' ', 'a', 't', 't', 'a', 'c', 'h', 'e', 'd', ' ', 't', 'o'], " Mana."@, seq![0, 0, 0, 0, 0, 1, 0, 0, 0, 1, 0, 0, 0, 1, 0, 0, 0, 0, 0, 0], 0)) by { reveal_with_fuel(crate::text::witnessed, 22); }
    crate::text::lemma_witnessed_none(seq!['c', 'a', 'r', 'd', 's', ' ', '\u{a4}', '(', 'I', ' ', 'a', 'm', ')', ' ', 'a', 't', 't', 'a', 'c', 'h', 'e', 'd', ' ', 't', 'o'], " Mana."@, seq![0, 0, 0, 0, 0, 1, 0, 0, 0, 1, 0, 0, 0, 1, 0, 0, 0, 0, 0, 0], 0);
    crate::text::lemma_replace_none(seq!['c', 'a', 'r', 'd', 's', ' ', '\u{a4}', '(', 'I', ' ', 'a', 'm', ')', ' ', 'a', 't', 't', 'a', 'c', 'h', 'e', 'd', ' ', 't', 'o'], " Mana."@, " ¤(Mana)."@);
    assert(crate::text::witnessed(seq!['c', 'a', 'r', 'd', 's', ' ', '\u{a4}', '(', 'I', ' ', 'a', 'm', ')', ' ', 'a', 't', 't', 'a', 'c', 'h', 'e', 'd', ' ', 't', 'o'], " Mana,"@, seq![0, 0, 0, 0, 0, 1, 0, 0, 0, 1, 0, 0, 0, 1, 0, 0, 0, 0, 0, 0], 0)) by { reveal_with_fuel(crate::text::witnessed, 22); }
    crate::text::lemma_witnessed_none(seq!['c', 'a', 'r', 'd', 's', ' ', '\u{a4}', '(', 'I', ' ', 'a', 'm', ')', ' ', 'a', 't', 't', 'a', 'c', 'h', 'e', 'd', ' ', 't', 'o'], " Mana,"@, seq![0, 0, 0, 0, 0, 1, 0, 0, 0, 1, 0, 0, 0, 1, 0, 0, 0, 0, 0, 0], 0);
    crate::text::lemma_replace_none(seq!['c', 'a', 'r', 'd', 's', ' ', '\u{a4}', '(', 'I', ' ', 'a', 'm', ')', ' ', 'a', 't', 't', 'a', 'c', 'h', 'e', 'd', ' ', 't', 'o'], " Mana,"@, " ¤(Mana),"@);
    assert(crate::text::witnessed(seq!['c', 'a', 'r', 'd', 's', ' ', '\u{a4}', '(', 'I', ' ', 'a', 'm', ')', ' ', 'a', 't', 't', 'a', 'c', 'h', 'e', 'd', ' ', 't', 'o'], "I’m"@, seq![0, 0, 0, 0, 0, 0, 0, 0, 1, 0, 0, 0, 0, 0, 0, 0, 0, 0, 0, 0, 0, 0, 0], 0)) by { reveal_with_fuel(crate::text::witnessed, 25); }
    crate::text::lemma_witnessed_none(seq!['c', 'a', 'r', 'd', 's', ' ', '\u{a4}', '(', 'I', ' ', 'a', 'm', ')', ' ', 'a', 't', 't', 'a', 'c', 'h', 'e', 'd', ' ', 't', 'o'], "I’m"@, seq![0, 0, 0, 0, 0, 0, 0, 0, 1, 0, 0, 0, 0, 0, 0, 0, 0, 0, 0, 0, 0, 0, 0], 0);
    crate::text::lemma_replace_none(seq!['c', 'a', 'r', 'd', 's', ' ', '\u{a4}', '(', 'I', ' ', 'a', 'm', ')', ' ', 'a', 't', 't', 'a', 'c', 'h', 'e', 'd', ' ', 't', 'o'], "I’m"@, "I am"@);
    assert(crate::text::witnessed(seq!['c', 'a', 'r', 'd', 's', ' ', '\u{a4}', '(', 'I', ' ', 'a', 'm', ')', ' ', 'a', 't', 't', 'a', 'c', 'h', 'e', 'd', ' ', 't', 'o'], "I'm"@, seq![0, 0, 0, 0, 0, 0, 0, 0, 1, 0, 0, 0, 0, 0, 0, 0, 0, 0, 0, 0, 0, 0, 0], 0)) by { reveal_with_fuel(crate::text::witnessed, 25); }
    crate::text::lemma_witnessed_none(seq!['c', 'a', 'r', 'd', 's', ' ', '\u{a4}', '(', 'I', ' ', 'a', 'm', ')', ' ', 'a', 't', 't', 'a', 'c', 'h', 'e', 'd', ' ', 't', 'o'], "I'm"@, seq![0, 0, 0, 0, 0, 0, 0, 0, 1, 0, 0, 0, 0, 0, 0, 0, 0, 0, 0, 0, 0, 0, 0], 0);
    crate::text::lemma_replace_none(seq!['c', 'a', 'r', 'd', 's', ' ', '\u{a4}', '(', 'I', ' ', 'a', 'm', ')', ' ', 'a', 't', 't', 'a', 'c', 'h', 'e', 'd', ' ', 't', 'o'], "I'm"@, "I am"@);
}

/// What group 2 makes of the middle of phrase 34.
proof fn lemma_phrase_34_group_2()
    ensures
        phrase_group_2(seq!['c', 'a', 'r', 'd', 's', ' ', '\u{a4}', '(', 'I', ' ', 'a', 'm', ')', ' ', 'a', 't', 't', 'a', 'c', 'h', 'e', 'd', ' ', 't', 'o']) == seq!['c', 'a', 'r', 'd', 's', ' ', '\u{a4}', '(', 'I', ' ', 'a', 'm', ')', ' ', 'a', 't', 't', 'a', 'c', 'h', 'e', 'd', ' ', 't', 'o'],
{
    reveal(phrase_group_2);
    reveal_strlit(" I am ");
    reveal_strlit(" I have");
    reveal_strlit(" me ");
    reveal_strlit(" my ");
    reveal_strlit(" ¤(I have)");
    reveal_strlit(" ¤(i am) ");
    reveal_strlit(" ¤(i have)");
    reveal_strlit(" ¤(me) ");
    reveal_strlit(" ¤(my) ");
    reveal_strlit(". I am ");
    reveal_strlit(". I have");
    reveal_strlit(". My ");
    reveal_strlit(". ¤(I am) ");
    reveal_strlit(". ¤(My) ");
    assert(crate::text::witnessed(seq!['c', 'a', 'r', 'd', 's', ' ', '\u{a4}', '(', 'I', ' ', 'a', 'm', ')', ' ', 'a', 't', 't', 'a', 'c', 'h', 'e', 'd', ' ', 't', 'o'], ". I am "@, seq![0, 0, 0, 0, 0, 0, 0, 0, 0, 0, 0, 0, 0, 0, 0, 0, 0, 0, 0], 0)) by { reveal_with_fuel(crate::text::witnessed, 21); }
    crate::text::lemma_witnessed_none(seq!['c', 'a', 'r', 'd', 's', ' ', '\u{a4}', '(', 'I', ' ', 'a', 'm', ')', ' ', 'a', 't', 't', 'a', 'c', 'h', 'e', 'd', ' ', 't', 'o'], ". I am "@, seq![0, 0, 0, 0, 0, 0, 0, 0, 0, 0, 0, 0, 0, 0, 0, 0, 0, 0, 0], 0);
    crate::text::lemma_replace_none(seq!['c', 'a', 'r', 'd', 's', ' ', '\u{a4}', '(', 'I', ' ', 'a', 'm', ')', ' ', 'a', 't', 't', 'a', 'c', 'h', 'e', 'd', ' ', 't', 'o'], ". I am "@, ". ¤(I am) "@);
    assert(crate::text::witnessed(seq!['c', 'a', 'r', 'd', 's', ' ', '\u{a4}', '(', 'I', ' ', 'a', 'm', ')', ' ', 'a', 't', 't', 'a', 'c', 'h', 'e', 'd', ' ', 't', 'o'], " I am "@, seq![0, 0, 0, 0, 0, 1, 0, 0, 0, 1, 0, 0, 0, 1, 0, 0, 0, 0, 0, 0], 0)) by { reveal_with_fuel(crate::text::witnessed, 22); }
    crate::text::lemma_witnessed_none(seq!['c', 'a', 'r', 'd', 's', ' ', '\u{a4}', '(', 'I', ' ', 'a', 'm', ')', ' ', 'a', 't', 't', 'a', 'c', 'h', 'e', 'd', ' ', 't', 'o'], " I am "@, seq![0, 0, 0, 0, 0, 1, 0, 0, 0, 1, 0, 0, 0, 1, 0, 0, 0, 0, 0, 0], 0);
    crate::text::lemma_replace_none(seq!['c', 'a', 'r', 'd', 's', ' ', '\u{a4}', '(', 'I', ' ', 'a', 'm', ')', ' ', 'a', 't', 't', 'a', 'c', 'h', 'e', 'd', ' ', 't', 'o'], " I am "@, " ¤(i am) "@);
    assert(crate::text::witnessed(seq!['c', 'a', 'r', 'd', 's', ' ', '\u{a4}', '(', 'I', ' ', 'a', 'm', ')', ' ', 'a', 't', 't', 'a', 'c', 'h', 'e', 'd', ' ', 't', 'o'], " I have"@, seq![0, 0, 0, 0, 0, 1, 0, 0, 0, 1, 0, 0, 0, 1, 0, 0, 0, 0, 0], 0)) by { reveal_with_fuel(crate::text::witnessed, 21); }
    crate::text::lemma_witnessed_none(seq!['c', 'a', 'r', 'd', 's', ' ', '\u{a4}', '(', 'I', ' ', 'a', 'm', ')', ' ', 'a', 't', 't', 'a', 'c', 'h', 'e', 'd', ' ', 't', 'o'], " I have"@, seq![0, 0, 0, 0, 0, 1, 0, 0, 0, 1, 0, 0, 0, 1, 0, 0, 0, 0, 0], 0);
    crate::text::lemma_replace_none(seq!['c', 'a', 'r', 'd', 's', ' ', '\u{a4}', '(', 'I', ' ', 'a', 'm', ')', ' ', 'a', 't', 't', 'a', 'c', 'h', 'e', 'd', ' ', 't', 'o'], " I have"@, " ¤(i have)"@);
    assert(crate::text::witnessed(seq!['c', 'a', 'r', 'd', 's', ' ', '\u{a4}', '(', 'I', ' ', 'a', 'm', ')', ' ', 'a', 't', 't', 'a', 'c', 'h', 'e', 'd', ' ', 't', 'o'], ". I have"@, seq![0, 0, 0, 0, 0, 0, 0, 0, 0, 0, 0, 0, 0, 0, 0, 0, 0, 0], 0)) by { reveal_with_fuel(crate::text::witnessed, 20); }
    crate::text::lemma_witnessed_none(seq!['c', 'a', 'r', 'd', 's', ' ', '\u{a4}', '(', 'I', ' ', 'a', 'm', ')', ' ', 'a', 't', 't', 'a', 'c', 'h', 'e', 'd', ' ', 't', 'o'], ". I have"@, seq![0, 0, 0, 0, 0, 0, 0, 0, 0, 0, 0, 0, 0, 0, 0, 0, 0, 0], 0);
    crate::text::lemma_replace_none(seq!['c', 'a', 'r', 'd', 's', ' ', '\u{a4}', '(', 'I', ' ', 'a', 'm', ')', ' ', 'a', 't', 't', 'a', 'c', 'h', 'e', 'd', ' ', 't', 'o'], ". I have"@, " ¤(I have)"@);
    assert(crate::text::witnessed(seq!['c', 'a', 'r', 'd', 's', ' ', '\u{a4}', '(', 'I', ' ', 'a', 'm', ')', ' ', 'a', 't', 't', 'a', 'c', 'h', 'e', 'd', ' ', 't', 'o'], " my "@, seq![0, 0, 0, 0, 0, 1, 0, 0, 0, 1, 0, 0, 0, 1, 0, 0, 0, 0, 0, 0, 0, 0], 0)) by { reveal_with_fuel(crate::text::witnessed, 24); }
    crate::text::lemma_witnessed_none(seq!['c', 'a', 'r', 'd', 's', ' ', '\u{a4}', '(', 'I', ' ', 'a', 'm', ')', ' ', 'a', 't', 't', 'a', 'c', 'h', 'e', 'd', ' ', 't', 'o'], " my "@, seq![0, 0, 0, 0, 0, 1, 0, 0, 0, 1, 0, 0, 0, 1, 0, 0, 0, 0, 0, 0, 0, 0], 0);
    crate::text::lemma_replace_none(seq!['c', 'a', 'r', 'd', 's', ' ', '\u{a4}', '(', 'I', ' ', 'a', 'm', ')', ' ', 'a', 't', 't', 'a', 'c', 'h', 'e', 'd', ' ', 't', 'o'], " my "@, " ¤(my) "@);
    assert(crate::text::witnessed(seq!['c', 'a', 'r', 'd', 's', ' ', '\u{a4}', '(', 'I', ' ', 'a', 'm', ')', ' ', 'a', 't', 't', 'a', 'c', 'h', 'e', 'd', ' ', 't', 'o'], ". My "@, seq![0, 0, 0, 0, 0, 0, 0, 0, 0, 0, 0, 0, 0, 0, 0, 0, 0, 0, 0, 0, 0], 0)) by { reveal_with_fuel(crate::text::witnessed, 23); }
    crate::text::lemma_witnessed_none(seq!['c', 'a', 'r', 'd', 's', ' ', '\u{a4}', '(', 'I', ' ', 'a', 'm', ')', ' ', 'a', 't', 't', 'a', 'c', 'h', 'e', 'd', ' ', 't', 'o'], ". My "@, seq![0, 0, 0, 0, 0, 0, 0, 0, 0, 0, 0, 0, 0, 0, 0, 0, 0, 0, 0, 0, 0], 0);
    crate::text::lemma_replace_none(seq!['c', 'a', 'r', 'd', 's', ' ', '\u{a4}', '(', 'I', ' ', 'a', 'm', ')', ' ', 'a', 't', 't', 'a', 'c', 'h', 'e', 'd', ' ', 't', 'o'], ". My "@, ". ¤(My) "@);
    assert(crate::text::witnessed(seq!['c', 'a', 'r', 'd', 's', ' ', '\u{a4}', '(', 'I', ' ', 'a', 'm', ')', ' ', 'a', 't', 't', 'a', 'c', 'h', 'e', 'd', ' ', 't', 'o'], " me "@, seq![0, 0, 0, 0, 0, 1, 0, 0, 0, 1, 0, 0, 0, 1, 0, 0, 0, 0, 0, 0, 0, 0], 0)) by { reveal_with_fuel(crate::text::witnessed, 24); }
    crate::text::lemma_witnessed_none(seq!['c', 'a', 'r', 'd', 's', ' ', '\u{a4}', '(', 'I', ' ', 'a', 'm', ')', ' ', 'a', 't', 't', 'a', 'c', 'h', 'e', 'd', ' ', 't', 'o'], " me "@, seq![0, 0, 0, 0, 0, 1, 0, 0, 0, 1, 0, 0, 0, 1, 0, 0, 0, 0, 0, 0, 0, 0], 0);
    crate::text::lemma_replace_none(seq!['c', 'a', 'r', 'd', 's', ' ', '\u{a4}', '(', 'I', ' ', 'a', 'm', ')', ' ', 'a', 't', 't', 'a', 'c', 'h', 'e', 'd', ' ', 't', 'o'], " me "@, " ¤(me) "@);
}

/// What group 3 makes of the middle of phrase 34.
proof fn lemma_phrase_34_group_3()
    ensures
        phrase_group_3(seq!['c', 'a', 'r', 'd', 's', ' ', '\u{a4}', '(', 'I', ' ', 'a', 'm', ')', ' ', 'a', 't', 't', 'a', 'c', 'h', 'e', 'd', ' ', 't', 'o']) == seq!['c', 'a', 'r', 'd', 's', ' ', '\u{a4}', '(', 'I', ' ', 'a', 'm', ')', ' ', 'a', 't', 't', 'a', 'c', 'h', 'e', 'd', ' ', 't', 'o'],
{
    reveal(phrase_group_3);
    reveal_strlit(" Me ");
    reveal_strlit(" Me,");
    reveal_strlit(" Me.");
    reveal_strlit(" me,");
    reveal_strlit(" me.");
    reveal_strlit(" ¤(Me) ");
    reveal_strlit(" ¤(Me),");
    reveal_strlit(" ¤(Me).");
    reveal_strlit(" ¤(me),");
    reveal_strlit(" ¤(me).");
    reveal_strlit(". I ");
    reveal_strlit(". ¤(I) ");
    reveal_strlit("\nI ");
    reveal_strlit("\n¤(I) ");
    assert(crate::text::witnessed(seq!['c', 'a', 'r', 'd', 's', ' ', '\u{a4}', '(', 'I', ' ', 'a', 'm', ')', ' ', 'a', 't', 't', 'a', 'c', 'h', 'e', 'd', ' ', 't', 'o'], " me,"@, seq![0, 0, 0, 0, 0, 1, 0, 0, 0, 1, 0, 0, 0, 1, 0, 0, 0, 0, 0, 0, 0, 0], 0)) by { reveal_with_fuel(crate::text::witnessed, 24); }
    crate::text::lemma_witnessed_none(seq!['c', 'a', 'r', 'd', 's', ' ', '\u{a4}', '(', 'I', ' ', 'a', 'm', ')', ' ', 'a', 't', 't', 'a', 'c', 'h', 'e', 'd', ' ', 't', 'o'], " me,"@, seq![0, 0, 0, 0, 0, 1, 0, 0, 0, 1, 0, 0, 0, 1, 0, 0, 0, 0, 0, 0, 0, 0], 0);
    crate::text::lemma_replace_none(seq!['c', 'a', 'r', 'd', 's', ' ', '\u{a4}', '(', 'I', ' ', 'a', 'm', ')', ' ', 'a', 't', 't', 'a', 'c', 'h', 'e', 'd', ' ', 't', 'o'], " me,"@, " ¤(me),"@);
    assert(crate::text::witnessed(seq!['c', 'a', 'r', 'd', 's', ' ', '\u{a4}', '(', 'I', ' ', 'a', 'm', ')', ' ', 'a', 't', 't', 'a', 'c', 'h', 'e', 'd', ' ', 't', 'o'], " me."@, seq![0, 0, 0, 0, 0, 1, 0, 0, 0, 1, 0, 0, 0, 1, 0, 0, 0, 0, 0, 0, 0, 0], 0)) by { reveal_with_fuel(crate::text::witnessed, 24); }
    crate::text::lemma_witnessed_none(seq!['c', 'a', 'r', 'd', 's', ' ', '\u{a4}', '(', 'I', ' ', 'a', 'm', ')', ' ', 'a', 't', 't', 'a', 'c', 'h', 'e', 'd', ' ', 't', 'o'], " me."@, seq![0, 0, 0, 0, 0, 1, 0, 0, 0, 1, 0, 0, 0, 1, 0, 0, 0, 0, 0, 0, 0, 0], 0);
    crate::text::lemma_replace_none(seq!['c', 'a', 'r', 'd', 's', ' ', '\u{a4}', '(', 'I', ' ', 'a', 'm', ')', ' ', 'a', 't', 't', 'a', 'c', 'h', 'e', 'd', ' ', 't', 'o'], " me."@, " ¤(me)."@);
    assert(crate::text::witnessed(seq!['c', 'a', 'r', 'd', 's', ' ', '\u{a4}', '(', 'I', ' ', 'a', 'm', ')', ' ', 'a', 't', 't', 'a', 'c', 'h', 'e', 'd', ' ', 't', 'o'], " Me "@, seq![0, 0, 0, 0, 0, 1, 0, 0, 0, 1, 0, 0, 0, 1, 0, 0, 0, 0, 0, 0, 0, 0], 0)) by { reveal_with_fuel(crate::text::witnessed, 24); }
    crate::text::lemma_witnessed_none(seq!['c', 'a', 'r', 'd', 's', ' ', '\u{a4}', '(', 'I', ' ', 'a', 'm', ')', ' ', 'a', 't', 't', 'a', 'c', 'h', 'e', 'd', ' ', 't', 'o'], " Me "@, seq![0, 0, 0, 0, 0, 1, 0, 0, 0, 1, 0, 0, 0, 1, 0, 0, 0, 0, 0, 0, 0, 0], 0);
    crate::text::lemma_replace_none(seq!['c', 'a', 'r', 'd', 's', ' ', '\u{a4}', '(', 'I', ' ', 'a', 'm', ')', ' ', 'a', 't', 't', 'a', 'c', 'h', 'e', 'd', ' ', 't', 'o'], " Me "@, " ¤(Me) "@);
    assert(crate::text::witnessed(seq!['c', 'a', 'r', 'd', 's', ' ', '\u{a4}', '(', 'I', ' ', 'a', 'm', ')', ' ', 'a', 't', 't', 'a', 'c', 'h', 'e', 'd', ' ', 't', 'o'], " Me,"@, seq![0, 0, 0, 0, 0, 1, 0, 0, 0, 1, 0, 0, 0, 1, 0, 0, 0, 0, 0, 0, 0, 0], 0)) by { reveal_with_fuel(crate::text::witnessed, 24); }
    crate::text::lemma_witnessed_none(seq!['c', 'a', 'r', 'd', 's', ' ', '\u{a4}', '(', 'I', ' ', 'a', 'm', ')', ' ', 'a', 't', 't', 'a', 'c', 'h', 'e', 'd', ' ', 't', 'o'], " Me,"@, seq![0, 0, 0, 0, 0, 1, 0, 0, 0, 1, 0, 0, 0, 1, 0, 0, 0, 0, 0, 0, 0, 0], 0);
    crate::text::lemma_replace_none(seq!['c', 'a', 'r', 'd', 's', ' ', '\u{a4}', '(', 'I', ' ', 'a', 'm', ')', ' ', 'a', 't', 't', 'a', 'c', 'h', 'e', 'd', ' ', 't', 'o'], " Me,"@, " ¤(Me),"@);
    assert(crate::text::witnessed(seq!['c', 'a', 'r', 'd', 's', ' ', '\u{a4}', '(', 'I', ' ', 'a', 'm', ')', ' ', 'a', 't', 't', 'a', 'c', 'h', 'e', 'd', ' ', 't', 'o'], " Me."@, seq![0, 0, 0, 0, 0, 1, 0, 0, 0, 1, 0, 0, 0, 1, 0, 0, 0, 0, 0, 0, 0, 0], 0)) by { reveal_with_fuel(crate::text::witnessed, 24); }
    crate::text::lemma_witnessed_none(seq!['c', 'a', 'r', 'd', 's', ' ', '\u{a4}', '(', 'I', ' ', 'a', 'm', ')', ' ', 'a', 't', 't', 'a', 'c', 'h', 'e', 'd', ' ', 't', 'o'], " Me."@, seq![0, 0, 0, 0, 0, 1, 0, 0, 0, 1, 0, 0, 0, 1, 0, 0, 0, 0, 0, 0, 0, 0], 0);
    crate::text::lemma_replace_none(seq!['c', 'a', 'r', 'd', 's', ' ', '\u{a4}', '(', 'I', ' ', 'a', 'm', ')', ' ', 'a', 't', 't', 'a', 'c', 'h', 'e', 'd', ' ', 't', 'o'], " Me."@, " ¤(Me)."@);
    assert(crate::text::witnessed(seq!['c', 'a', 'r', 'd', 's', ' ', '\u{a4}', '(', 'I', ' ', 'a', 'm', ')', ' ', 'a', 't', 't', 'a', 'c', 'h', 'e', 'd', ' ', 't', 'o'], "\nI "@, seq![0, 0, 0, 0, 0, 0, 0, 0, 0, 0, 0, 0, 0, 0, 0, 0, 0, 0, 0, 0, 0, 0, 0], 0)) by { reveal_with_fuel(crate::text::witnessed, 25); }
    crate::text::lemma_witnessed_none(seq!['c', 'a', 'r', 'd', 's', ' ', '\u{a4}', '(', 'I', ' ', 'a', 'm', ')', ' ', 'a', 't', 't', 'a', 'c', 'h', 'e', 'd', ' ', 't', 'o'], "\nI "@, seq![0, 0, 0, 0, 0, 0, 0, 0, 0, 0, 0, 0, 0, 0, 0, 0, 0, 0, 0, 0, 0, 0, 0], 0);
    crate::text::lemma_replace_none(seq!['c', 'a', 'r', 'd', 's', ' ', '\u{a4}', '(', 'I', ' ', 'a', 'm', ')', ' ', 'a', 't', 't', 'a', 'c', 'h', 'e', 'd', ' ', 't', 'o'], "\nI "@, "\n¤(I) "@);
    assert(crate::text::witnessed(seq!['c', 'a', 'r', 'd', 's', ' ', '\u{a4}', '(', 'I', ' ', 'a', 'm', ')', ' ', 'a', 't', 't', 'a', 'c', 'h', 'e', 'd', ' ', 't', 'o'], ". I "@, seq![0, 0, 0, 0, 0, 0, 0, 0, 0, 0, 0, 0, 0, 0, 0, 0, 0, 0, 0, 0, 0, 0], 0)) by { reveal_with_fuel(crate::text::witnessed, 24); }
    crate::text::lemma_witnessed_none(seq!['c', 'a', 'r', 'd', 's', ' ', '\u{a4}', '(', 'I', ' ', 'a', 'm', ')', ' ', 'a', 't', 't', 'a', 'c', 'h', 'e', 'd', ' ', 't', 'o'], ". I "@, seq![0, 0, 0, 0, 0, 0, 0, 0, 0, 0, 0, 0, 0, 0, 0, 0, 0, 0, 0, 0, 0, 0], 0);
    crate::text::lemma_replace_none(seq!['c', 'a', 'r', 'd', 's', ' ', '\u{a4}', '(', 'I', ' ', 'a', 'm', ')', ' ', 'a', 't', 't', 'a', 'c', 'h', 'e', 'd', ' ', 't', 'o'], ". I "@, ". ¤(I) "@);
}

/// What group 4 makes of the middle of phrase 34.
proof fn lemma_phrase_34_group_4()
    ensures
        phrase_group_4(seq!['c', 'a', 'r', 'd', 's', ' ', '\u{a4}', '(', 'I', ' ', 'a', 'm', ')', ' ', 'a', 't', 't', 'a', 'c', 'h', 'e', 'd', ' ', 't', 'o']) == seq!['t', 'h', 'e', ' ', 'c', 'a', 'r', 'd', ' ', '\u{a4}', '(', 'I', ' ', 'a', 'm', ')', ' ', 'a', 't', 't', 'a', 'c', 'h', 'e', 'd', ' ', 't', 'o'],
{
    reveal(phrase_group_4);
    reveal_strlit(" I ");
    reveal_strlit(" I,");
    reveal_strlit(" I.");
    reveal_strlit(" ¤(i) ");
    reveal_strlit(" ¤(i),");
    reveal_strlit(" ¤(i).");
    reveal_strlit(". I,");
    reveal_strlit(". I.");
    reveal_strlit(". ¤(I),");
    reveal_strlit(". ¤(I). ");
    reveal_strlit("Cards ¤(I am) attached to");
    reveal_strlit("The card ¤(I am) attached to");
    reveal_strlit("cards ¤(I am) attached to");
    reveal_strlit("the card ¤(I am) attached to");
    assert(crate::text::witnessed(seq!['c', 'a', 'r', 'd', 's', ' ', '\u{a4}', '(', 'I', ' ', 'a', 'm', ')', ' ', 'a', 't', 't', 'a', 'c', 'h', 'e', 'd', ' ', 't', 'o'], ". I,"@, seq![0, 0, 0, 0, 0, 0, 0, 0, 0, 0, 0, 0, 0, 0, 0, 0, 0, 0, 0, 0, 0, 0], 0)) by { reveal_with_fuel(crate::text::witnessed, 24); }
    crate::text::lemma_witnessed_none(seq!['c', 'a', 'r', 'd', 's', ' ', '\u{a4}', '(', 'I', ' ', 'a', 'm', ')', ' ', 'a', 't', 't', 'a', 'c', 'h', 'e', 'd', ' ', 't', 'o'], ". I,"@, seq![0, 0, 0, 0, 0, 0, 0, 0, 0, 0, 0, 0, 0, 0, 0, 0, 0, 0, 0, 0, 0, 0], 0);
    crate::text::lemma_replace_none(seq!['c', 'a', 'r', 'd', 's', ' ', '\u{a4}', '(', 'I', ' ', 'a', 'm', ')', ' ', 'a', 't', 't', 'a', 'c', 'h', 'e', 'd', ' ', 't', 'o'], ". I,"@, ". ¤(I),"@);
    assert(crate::text::witnessed(seq!['c', 'a', 'r', 'd', 's', ' ', '\u{a4}', '(', 'I', ' ', 'a', 'm', ')', ' ', 'a', 't', 't', 'a', 'c', 'h', 'e', 'd', ' ', 't', 'o'], ". I."@, seq![0, 0, 0, 0, 0, 0, 0, 0, 0, 0, 0, 0, 0, 0, 0, 0, 0, 0, 0, 0, 0, 0], 0)) by { reveal_with_fuel(crate::text::witnessed, 24); }
    crate::text::lemma_witnessed_none(seq!['c', 'a', 'r', 'd', 's', ' ', '\u{a4}', '(', 'I', ' ', 'a', 'm', ')', ' ', 'a', 't', 't', 'a', 'c', 'h', 'e', 'd', ' ', 't', 'o'], ". I."@, seq![0, 0, 0, 0, 0, 0, 0, 0, 0, 0, 0, 0, 0, 0, 0, 0, 0, 0, 0, 0, 0, 0], 0);
    crate::text::lemma_replace_none(seq!['c', 'a', 'r', 'd', 's', ' ', '\u{a4}', '(', 'I', ' ', 'a', 'm', ')', ' ', 'a', 't', 't', 'a', 'c', 'h', 'e', 'd', ' ', 't', 'o'], ". I."@, ". ¤(I). "@);
    assert(crate::text::witnessed(seq!['c', 'a', 'r', 'd', 's', ' ', '\u{a4}', '(', 'I', ' ', 'a', 'm', ')', ' ', 'a', 't', 't', 'a', 'c', 'h', 'e', 'd', ' ', 't', 'o'], " I "@, seq![0, 0, 0, 0, 0, 1, 0, 0, 0, 1, 0, 0, 0, 1, 0, 0, 0, 0, 0, 0, 0, 0, 1], 0)) by { reveal_with_fuel(crate::text::witnessed, 25); }
    crate::text::lemma_witnessed_none(seq!['c', 'a', 'r', 'd', 's', ' ', '\u{a4}', '(', 'I', ' ', 'a', 'm', ')', ' ', 'a', 't', 't', 'a', 'c', 'h', 'e', 'd', ' ', 't', 'o'], " I "@, seq![0, 0, 0, 0, 0, 1, 0, 0, 0, 1, 0, 0, 0, 1, 0, 0, 0, 0, 0, 0, 0, 0, 1], 0);
    crate::text::lemma_replace_none(seq!['c', 'a', 'r', 'd', 's', ' ', '\u{a4}', '(', 'I', ' ', 'a', 'm', ')', ' ', 'a', 't', 't', 'a', 'c', 'h', 'e', 'd', ' ', 't', 'o'], " I "@, " ¤(i) "@);
    assert(crate::text::witnessed(seq!['c', 'a', 'r', 'd', 's', ' ', '\u{a4}', '(', 'I', ' ', 'a', 'm', ')', ' ', 'a', 't', 't', 'a', 'c', 'h', 'e', 'd', ' ', 't', 'o'], " I,"@, seq![0, 0, 0, 0, 0, 1, 0, 0, 0, 1, 0, 0, 0, 1, 0, 0, 0, 0, 0, 0, 0, 0, 1], 0)) by { reveal_with_fuel(crate::text::witnessed, 25); }
    crate::text::lemma_witnessed_none(seq!['c', 'a', 'r', 'd', 's', ' ', '\u{a4}', '(', 'I', ' ', 'a', 'm', ')', ' ', 'a', 't', 't', 'a', 'c', 'h', 'e', 'd', ' ', 't', 'o'], " I,"@, seq![0, 0, 0, 0, 0, 1, 0, 0, 0, 1, 0, 0, 0, 1, 0, 0, 0, 0, 0, 0, 0, 0, 1], 0);
    crate::text::lemma_replace_none(seq!['c', 'a', 'r', 'd', 's', ' ', '\u{a4}', '(', 'I', ' ', 'a', 'm', ')', ' ', 'a', 't', 't', 'a', 'c', 'h', 'e', 'd', ' ', 't', 'o'], " I,"@, " ¤(i),"@);
    assert(crate::text::witnessed(seq!['c', 'a', 'r', 'd', 's', ' ', '\u{a4}', '(', 'I', ' ', 'a', 'm', ')', ' ', 'a', 't', 't', 'a', 'c', 'h', 'e', 'd', ' ', 't', 'o'], " I."@, seq![0, 0, 0, 0, 0, 1, 0, 0, 0, 1, 0, 0, 0, 1, 0, 0, 0, 0, 0, 0, 0, 0, 1], 0)) by { reveal_with_fuel(crate::text::witnessed, 25); }
    crate::text::lemma_witnessed_none(seq!['c', 'a', 'r', 'd', 's', ' ', '\u{a4}', '(', 'I', ' ', 'a', 'm', ')', ' ', 'a', 't', 't', 'a', 'c', 'h', 'e', 'd', ' ', 't', 'o'], " I."@, seq![0, 0, 0, 0, 0, 1, 0, 0, 0, 1, 0, 0, 0, 1, 0, 0, 0, 0, 0, 0, 0, 0, 1], 0);
    crate::text::lemma_replace_none(seq!['c', 'a', 'r', 'd', 's', ' ', '\u{a4}', '(', 'I', ' ', 'a', 'm', ')', ' ', 'a', 't', 't', 'a', 'c', 'h', 'e', 'd', ' ', 't', 'o'], " I."@, " ¤(i)."@);
    assert(crate::text::witnessed(seq!['c', 'a', 'r', 'd', 's', ' ', '\u{a4}', '(', 'I', ' ', 'a', 'm', ')', ' ', 'a', 't', 't', 'a', 'c', 'h', 'e', 'd', ' ', 't', 'o'], "Cards ¤(I am) attached to"@, seq![0], 0)) by { reveal_with_fuel(crate::text::witnessed, 3); }
    crate::text::lemma_witnessed_none(seq!['c', 'a', 'r', 'd', 's', ' ', '\u{a4}', '(', 'I', ' ', 'a', 'm', ')', ' ', 'a', 't', 't', 'a', 'c', 'h', 'e', 'd', ' ', 't', 'o'], "Cards ¤(I am) attached to"@, seq![0], 0);
    crate::text::lemma_replace_none(seq!['c', 'a', 'r', 'd', 's', ' ', '\u{a4}', '(', 'I', ' ', 'a', 'm', ')', ' ', 'a', 't', 't', 'a', 'c', 'h', 'e', 'd', ' ', 't', 'o'], "Cards ¤(I am) attached to"@, "The card ¤(I am) attached to"@);
    assert(crate::text::witnessed_until(seq!['c', 'a', 'r', 'd', 's', ' ', '\u{a4}', '(', 'I', ' ', 'a', 'm', ')', ' ', 'a', 't', 't', 'a', 'c', 'h', 'e', 'd', ' ', 't', 'o'], "cards ¤(I am) attached to"@, seq![], 0, 0)) by { reveal_with_fuel(crate::text::witnessed_until, 2); }
    assert(crate::text::witnessed(seq!['c', 'a', 'r', 'd', 's', ' ', '\u{a4}', '(', 'I', ' ', 'a', 'm', ')', ' ', 'a', 't', 't', 'a', 'c', 'h', 'e', 'd', ' ', 't', 'o'], "cards ¤(I am) attached to"@, seq![0, 0, 0, 0, 0, 0, 0, 0, 0, 0, 0, 0, 0, 0, 0, 0, 0, 0, 0, 0, 0, 0, 0, 0, 0], 25)) by { reveal_with_fuel(crate::text::witnessed, 27); }
    assert(seq!['c', 'a', 'r', 'd', 's', ' ', '\u{a4}', '(', 'I', ' ', 'a', 'm', ')', ' ', 'a', 't', 't', 'a', 'c', 'h', 'e', 'd', ' ', 't', 'o'].subrange(0, 25) =~= "cards ¤(I am) attached to"@);
    crate::text::lemma_replace_once(seq!['c', 'a', 'r', 'd', 's', ' ', '\u{a4}', '(', 'I', ' ', 'a', 'm', ')', ' ', 'a', 't', 't', 'a', 'c', 'h', 'e', 'd', ' ', 't', 'o'], "cards ¤(I am) attached to"@, "the card ¤(I am) attached to"@, 0, seq![], seq![0, 0, 0, 0, 0, 0, 0, 0, 0, 0, 0, 0, 0, 0, 0, 0, 0, 0, 0, 0, 0, 0, 0, 0, 0]);
    assert(seq!['c', 'a', 'r', 'd', 's', ' ', '\u{a4}', '(', 'I', ' ', 'a', 'm', ')', ' ', 'a', 't', 't', 'a', 'c', 'h', 'e', 'd', ' ', 't', 'o'].subrange(0, 0) + "the card ¤(I am) attached to"@ + seq!['c', 'a', 'r', 'd', 's', ' ', '\u{a4}', '(', 'I', ' ', 'a', 'm', ')', ' ', 'a', 't', 't', 'a', 'c', 'h', 'e', 'd', ' ', 't', 'o'].subrange(25, 25) =~= seq!['t', 'h', 'e', ' ', 'c', 'a', 'r', 'd', ' ', '\u{a4}', '(', 'I', ' ', 'a', 'm', ')', ' ', 'a', 't', 't', 'a', 'c', 'h', 'e', 'd', ' ', 't', 'o']);
}

/// Between digits, phrase 34 becomes what the card text makes of it.
proof fn lemma_phrase_34(x: Seq<char>, y: Seq<char>)
    requires
        all_digits(x),
        all_digits(y),
        trim(x + "cards ¤(I am) attached to"@ + y) == x + "cards ¤(I am) attached to"@ + y,
    ensures
        phrase_commands(x + "cards ¤(I am) attached to"@ + y) == Some(x + seq!['t', 'h', 'e', ' ', 'c', 'a', 'r', 'd', ' ', '\u{a4}', '(', 'I', ' ', 'a', 'm', ')', ' ', 'a', 't', 't', 'a', 'c', 'h', 'e', 'd', ' ', 't', 'o'] + y),
{
    reveal_strlit("cards ¤(I am) attached to");
    assert("cards ¤(I am) attached to"@ =~= seq!['c', 'a', 'r', 'd', 's', ' ', '\u{a4}', '(', 'I', ' ', 'a', 'm', ')', ' ', 'a', 't', 't', 'a', 'c', 'h', 'e', 'd', ' ', 't', 'o']);
    reveal_strlit("Card with");
    reveal_strlit("card with");
    reveal_strlit("Cards with");
    reveal_strlit("cards with");
    let m0 = seq!['c', 'a', 'r', 'd', 's', ' ', '\u{a4}', '(', 'I', ' ', 'a', 'm', ')', ' ', 'a', 't', 't', 'a', 'c', 'h', 'e', 'd', ' ', 't', 'o'];
    lemma_group_framed_0(x, m0, y);
    lemma_phrase_34_group_0();
    let m1 = phrase_group_0(m0);
    lemma_group_framed_1(x, m1, y);
    lemma_phrase_34_group_1();
    let m2 = phrase_group_1(m1);
    lemma_group_framed_2(x, m2, y);
    lemma_phrase_34_group_2();
    let m3 = phrase_group_2(m2);
    lemma_group_framed_3(x, m3, y);
    lemma_phrase_34_group_3();
    let m4 = phrase_group_3(m3);
    lemma_group_framed_4(x, m4, y);
    lemma_phrase_34_group_4();
    let m5 = phrase_group_4(m4);
    assert(crate::text::witnessed(seq!['t', 'h', 'e', ' ', 'c', 'a', 'r', 'd', ' ', '\u{a4}', '(', 'I', ' ', 'a', 'm', ')', ' ', 'a', 't', 't', 'a', 'c', 'h', 'e', 'd', ' ', 't', 'o'], "Card with"@, seq![0, 0, 0, 0, 0, 0, 0, 0, 0, 0, 0, 0, 0, 0, 0, 0, 0, 0, 0, 0], 0)) by { reveal_with_fuel(crate::text::witnessed, 22); }
    crate::text::lemma_witnessed_none(seq!['t', 'h', 'e', ' ', 'c', 'a', 'r', 'd', ' ', '\u{a4}', '(', 'I', ' ', 'a', 'm', ')', ' ', 'a', 't', 't', 'a', 'c', 'h', 'e', 'd', ' ', 't', 'o'], "Card with"@, seq![0, 0, 0, 0, 0, 0, 0, 0, 0, 0, 0, 0, 0, 0, 0, 0, 0, 0, 0, 0], 0);
    assert(digit_free("Card with"@));
    crate::text::lemma_replace_framed(x, seq!['t', 'h', 'e', ' ', 'c', 'a', 'r', 'd', ' ', '\u{a4}', '(', 'I', ' ', 'a', 'm', ')', ' ', 'a', 't', 't', 'a', 'c', 'h', 'e', 'd', ' ', 't', 'o'], y, "Card with"@, "Card with"@);
    assert(with_marker(WithPhrase::Card) == "Card with"@);
    assert(crate::text::witnessed(seq!['t', 'h', 'e', ' ', 'c', 'a', 'r', 'd', ' ', '\u{a4}', '(', 'I', ' ', 'a', 'm', ')', ' ', 'a', 't', 't', 'a', 'c', 'h', 'e', 'd', ' ', 't', 'o'], "card with"@, seq![0, 0, 0, 0, 5, 0, 0, 0, 0, 0, 0, 0, 0, 0, 0, 0, 0, 0, 0, 0], 0)) by { reveal_with_fuel(crate::text::witnessed, 22); }
    crate::text::lemma_witnessed_none(seq!['t', 'h', 'e', ' ', 'c', 'a', 'r', 'd', ' ', '\u{a4}', '(', 'I', ' ', 'a', 'm', ')', ' ', 'a', 't', 't', 'a', 'c', 'h', 'e', 'd', ' ', 't', 'o'], "card with"@, seq![0, 0, 0, 0, 5, 0, 0, 0, 0, 0, 0, 0, 0, 0, 0, 0, 0, 0, 0, 0], 0);
    assert(digit_free("card with"@));
    crate::text::lemma_replace_framed(x, seq!['t', 'h', 'e', ' ', 'c', 'a', 'r', 'd', ' ', '\u{a4}', '(', 'I', ' ', 'a', 'm', ')', ' ', 'a', 't', 't', 'a', 'c', 'h', 'e', 'd', ' ', 't', 'o'], y, "card with"@, "card with"@);
    assert(with_marker(WithPhrase::CardLower) == "card with"@);
    assert(crate::text::witnessed(seq!['t', 'h', 'e', ' ', 'c', 'a', 'r', 'd', ' ', '\u{a4}', '(', 'I', ' ', 'a', 'm', ')', ' ', 'a', 't', 't', 'a', 'c', 'h', 'e', 'd', ' ', 't', 'o'], "Cards with"@, seq![0, 0, 0, 0, 0, 0, 0, 0, 0, 0, 0, 0, 0, 0, 0, 0, 0, 0, 0], 0)) by { reveal_with_fuel(crate::text::witnessed, 21); }
    crate::text::lemma_witnessed_none(seq!['t', 'h', 'e', ' ', 'c', 'a', 'r', 'd', ' ', '\u{a4}', '(', 'I', ' ', 'a', 'm', ')', ' ', 'a', 't', 't', 'a', 'c', 'h', 'e', 'd', ' ', 't', 'o'], "Cards with"@, seq![0, 0, 0, 0, 0, 0, 0, 0, 0, 0, 0, 0, 0, 0, 0, 0, 0, 0, 0], 0);
    assert(digit_free("Cards with"@));
    crate::text::lemma_replace_framed(x, seq!['t', 'h', 'e', ' ', 'c', 'a', 'r', 'd', ' ', '\u{a4}', '(', 'I', ' ', 'a', 'm', ')', ' ', 'a', 't', 't', 'a', 'c', 'h', 'e', 'd', ' ', 't', 'o'], y, "Cards with"@, "Cards with"@);
    assert(with_marker(WithPhrase::Cards) == "Cards with"@);
    assert(crate::text::witnessed(seq!['t', 'h', 'e', ' ', 'c', 'a', 'r', 'd', ' ', '\u{a4}', '(', 'I', ' ', 'a', 'm', ')', ' ', 'a', 't', 't', 'a', 'c', 'h', 'e', 'd', ' ', 't', 'o'], "cards with"@, seq![0, 0, 0, 0, 4, 0, 0, 0, 0, 0, 0, 0, 0, 0, 0, 0, 0, 0, 0], 0)) by { reveal_with_fuel(crate::text::witnessed, 21); }
    crate::text::lemma_witnessed_none(seq!['t', 'h', 'e', ' ', 'c', 'a', 'r', 'd', ' ', '\u{a4}', '(', 'I', ' ', 'a', 'm', ')', ' ', 'a', 't', 't', 'a', 'c', 'h', 'e', 'd', ' ', 't', 'o'], "cards with"@, seq![0, 0, 0, 0, 4, 0, 0, 0, 0, 0, 0, 0, 0, 0, 0, 0, 0, 0, 0], 0);
    assert(digit_free("cards with"@));
    crate::text::lemma_replace_framed(x, seq!['t', 'h', 'e', ' ', 'c', 'a', 'r', 'd', ' ', '\u{a4}', '(', 'I', ' ', 'a', 'm', ')', ' ', 'a', 't', 't', 'a', 'c', 'h', 'e', 'd', ' ', 't', 'o'], y, "cards with"@, "cards with"@);
    assert(with_marker(WithPhrase::CardsLower) == "cards with"@);
}

/// Each fixed phrase of card text becomes its command: a phrase between
/// digits, in a text without white space around it, gives what the card
/// text makes of it, the digits kept; for every phrase but `. I have`, which
/// ` I have` takes first, that is the phrase's own command.
pub proof fn lemma_fixed_phrases_become_commands(x: Seq<char>, y: Seq<char>)
    requires
        all_digits(x),
        all_digits(y),
    ensures
        trim(x + "\n "@ + y) == x + "\n "@ + y ==> phrase_commands(x + "\n "@ + y) == Some(x + seq![' '] + y),
        trim(x + "  "@ + y) == x + "  "@ + y ==> phrase_commands(x + "  "@ + y) == Some(x + seq![' '] + y),
        trim(x + "Boost"@ + y) == x + "Boost"@ + y ==> phrase_commands(x + "Boost"@ + y) == Some(x + seq!['\u{a4}', '(', 'B', 'o', 'o', 's', 't', ')'] + y),
        trim(x + "boost"@ + y) == x + "boost"@ + y ==> phrase_commands(x + "boost"@ + y) == Some(x + seq!['\u{a4}', '(', 'b', 'o', 'o', 's', 't', ')'] + y),
        trim(x + "experience"@ + y) == x + "experience"@ + y ==> phrase_commands(x + "experience"@ + y) == Some(x + seq!['\u{a4}', '(', 'x', 'p', ')'] + y),
        trim(x + "Experience"@ + y) == x + "Experience"@ + y ==> phrase_commands(x + "Experience"@ + y) == Some(x + seq!['\u{a4}', '(', 'X', 'p', ')'] + y),
        trim(x + " mana "@ + y) == x + " mana "@ + y ==> phrase_commands(x + " mana "@ + y) == Some(x + seq![' ', '\u{a4}', '(', 'm', 'a', 'n', 'a', ')', ' '] + y),
        trim(x + " mana."@ + y) == x + " mana."@ + y ==> phrase_commands(x + " mana."@ + y) == Some(x + seq![' ', '\u{a4}', '(', 'm', 'a', 'n', 'a', ')', '.'] + y),
        trim(x + " mana,"@ + y) == x + " mana,"@ + y ==> phrase_commands(x + " mana,"@ + y) == Some(x + seq![' ', '\u{a4}', '(', 'm', 'a', 'n', 'a', ')', ','] + y),
        trim(x + " Mana "@ + y) == x + " Mana "@ + y ==> phrase_commands(x + " Mana "@ + y) == Some(x + seq![' ', '\u{a4}', '(', 'M', 'a', 'n', 'a', ')', ' '] + y),
        trim(x + " Mana."@ + y) == x + " Mana."@ + y ==> phrase_commands(x + " Mana."@ + y) == Some(x + seq![' ', '\u{a4}', '(', 'M', 'a', 'n', 'a', ')', '.'] + y),
        trim(x + " Mana,"@ + y) == x + " Mana,"@ + y ==> phrase_commands(x + " Mana,"@ + y) == Some(x + seq![' ', '\u{a4}', '(', 'M', 'a', 'n', 'a', ')', ','] + y),
        trim(x + "I’m"@ + y) == x + "I’m"@ + y ==> phrase_commands(x + "I’m"@ + y) == Some(x + seq!['I', ' ', 'a', 'm'] + y),
        trim(x + "I'm"@ + y) == x + "I'm"@ + y ==> phrase_commands(x + "I'm"@ + y) == Some(x + seq!['I', ' ', 'a', 'm'] + y),
        trim(x + ". I am "@ + y) == x + ". I am "@ + y ==> phrase_commands(x + ". I am "@ + y) == Some(x + seq!['.', ' ', '\u{a4}', '(', 'I', ' ', 'a', 'm', ')', ' '] + y),
        trim(x + " I am "@ + y) == x + " I am "@ + y ==> phrase_commands(x + " I am "@ + y) == Some(x + seq![' ', '\u{a4}', '(', 'i', ' ', 'a', 'm', ')', ' '] + y),
        trim(x + " I have"@ + y) == x + " I have"@ + y ==> phrase_commands(x + " I have"@ + y) == Some(x + seq![' ', '\u{a4}', '(', 'i', ' ', 'h', 'a', 'v', 'e', ')'] + y),
        trim(x + ". I have"@ + y) == x + ". I have"@ + y ==> phrase_commands(x + ". I have"@ + y) == Some(x + seq!['.', ' ', '\u{a4}', '(', 'i', ' ', 'h', 'a', 'v', 'e', ')'] + y),
        trim(x + " my "@ + y) == x + " my "@ + y ==> phrase_commands(x + " my "@ + y) == Some(x + seq![' ', '\u{a4}', '(', 'm', 'y', ')', ' '] + y),
        trim(x + ". My "@ + y) == x + ". My "@ + y ==> phrase_commands(x + ". My "@ + y) == Some(x + seq!['.', ' ', '\u{a4}', '(', 'M', 'y', ')', ' '] + y),
        trim(x + " me "@ + y) == x + " me "@ + y ==> phrase_commands(x + " me "@ + y) == Some(x + seq![' ', '\u{a4}', '(', 'm', 'e', ')', ' '] + y),
        trim(x + " me,"@ + y) == x + " me,"@ + y ==> phrase_commands(x + " me,"@ + y) == Some(x + seq![' ', '\u{a4}', '(', 'm', 'e', ')', ','] + y),
        trim(x + " me."@ + y) == x + " me."@ + y ==> phrase_commands(x + " me."@ + y) == Some(x + seq![' ', '\u{a4}', '(', 'm', 'e', ')', '.'] + y),
        trim(x + " Me "@ + y) == x + " Me "@ + y ==> phrase_commands(x + " Me "@ + y) == Some(x + seq![' ', '\u{a4}', '(', 'M', 'e', ')', ' '] + y),
        trim(x + " Me,"@ + y) == x + " Me,"@ + y ==> phrase_commands(x + " Me,"@ + y) == Some(x + seq![' ', '\u{a4}', '(', 'M', 'e', ')', ','] + y),
        trim(x + " Me."@ + y) == x + " Me."@ + y ==> phrase_commands(x + " Me."@ + y) == Some(x + seq![' ', '\u{a4}', '(', 'M', 'e', ')', '.'] + y),
        trim(x + "\nI "@ + y) == x + "\nI "@ + y ==> phrase_commands(x + "\nI "@ + y) == Some(x + seq!['\n', '\u{a4}', '(', 'I', ')', ' '] + y),
        trim(x + ". I "@ + y) == x + ". I "@ + y ==> phrase_commands(x + ". I "@ + y) == Some(x + seq!['.', ' ', '\u{a4}', '(', 'I', ')', ' '] + y),
        trim(x + ". I,"@ + y) == x + ". I,"@ + y ==> phrase_commands(x + ". I,"@ + y) == Some(x + seq!['.', ' ', '\u{a4}', '(', 'I', ')', ','] + y),
        trim(x + ". I."@ + y) == x + ". I."@ + y ==> phrase_commands(x + ". I."@ + y) == Some(x + seq!['.', ' ', '\u{a4}', '(', 'I', ')', '.', ' '] + y),
        trim(x + " I "@ + y) == x + " I "@ + y ==> phrase_commands(x + " I "@ + y) == Some(x + seq![' ', '\u{a4}', '(', 'i', ')', ' '] + y),
        trim(x + " I,"@ + y) == x + " I,"@ + y ==> phrase_commands(x + " I,"@ + y) == Some(x + seq![' ', '\u{a4}', '(', 'i', ')', ','] + y),
        trim(x + " I."@ + y) == x + " I."@ + y ==> phrase_commands(x + " I."@ + y) == Some(x + seq![' ', '\u{a4}', '(', 'i', ')', '.'] + y),
        trim(x + "Cards ¤(I am) attached to"@ + y) == x + "Cards ¤(I am) attached to"@ + y ==> phrase_commands(x + "Cards ¤(I am) attached to"@ + y) == Some(x + seq!['T', 'h', 'e', ' ', 'c', 'a', 'r', 'd', ' ', '\u{a4}', '(', 'I', ' ', 'a', 'm', ')', ' ', 'a', 't', 't', 'a', 'c', 'h', 'e', 'd', ' ', 't', 'o'] + y),
        trim(x + "cards ¤(I am) attached to"@ + y) == x + "cards ¤(I am) attached to"@ + y ==> phrase_commands(x + "cards ¤(I am) attached to"@ + y) == Some(x + seq!['t', 'h', 'e', ' ', 'c', 'a', 'r', 'd', ' ', '\u{a4}', '(', 'I', ' ', 'a', 'm', ')', ' ', 'a', 't', 't', 'a', 'c', 'h', 'e', 'd', ' ', 't', 'o'] + y),
{
    if trim(x + "\n "@ + y) == x + "\n "@ + y {
        lemma_phrase_0(x, y);
    }
    if trim(x + "  "@ + y) == x + "  "@ + y {
        lemma_phrase_1(x, y);
    }
    if trim(x + "Boost"@ + y) == x + "Boost"@ + y {
        lemma_phrase_2(x, y);
    }
    if trim(x + "boost"@ + y) == x + "boost"@ + y {
        lemma_phrase_3(x, y);
    }
    if trim(x + "experience"@ + y) == x + "experience"@ + y {
        lemma_phrase_4(x, y);
    }
    if trim(x + "Experience"@ + y) == x + "Experience"@ + y {
        lemma_phrase_5(x, y);
    }
    if trim(x + " mana "@ + y) == x + " mana "@ + y {
        lemma_phrase_6(x, y);
    }
    if trim(x + " mana."@ + y) == x + " mana."@ + y {
        lemma_phrase_7(x, y);
    }
    if trim(x + " mana,"@ + y) == x + " mana,"@ + y {
        lemma_phrase_8(x, y);
    }
    if trim(x + " Mana "@ + y) == x + " Mana "@ + y {
        lemma_phrase_9(x, y);
    }
    if trim(x + " Mana."@ + y) == x + " Mana."@ + y {
        lemma_phrase_10(x, y);
    }
    if trim(x + " Mana,"@ + y) == x + " Mana,"@ + y {
        lemma_phrase_11(x, y);
    }
    if trim(x + "I’m"@ + y) == x + "I’m"@ + y {
        lemma_phrase_12(x, y);
    }
    if trim(x + "I'm"@ + y) == x + "I'm"@ + y {
        lemma_phrase_13(x, y);
    }
    if trim(x + ". I am "@ + y) == x + ". I am "@ + y {
        lemma_phrase_14(x, y);
    }
    if trim(x + " I am "@ + y) == x + " I am "@ + y {
        lemma_phrase_15(x, y);
    }
    if trim(x + " I have"@ + y) == x + " I have"@ + y {
        lemma_phrase_16(x, y);
    }
    if trim(x + ". I have"@ + y) == x + ". I have"@ + y {
        lemma_phrase_17(x, y);
    }
    if trim(x + " my "@ + y) == x + " my "@ + y {
        lemma_phrase_18(x, y);
    }
    if trim(x + ". My "@ + y) == x + ". My "@ + y {
        lemma_phrase_19(x, y);
    }
    if trim(x + " me "@ + y) == x + " me "@ + y {
        lemma_phrase_20(x, y);
    }
    if trim(x + " me,"@ + y) == x + " me,"@ + y {
        lemma_phrase_21(x, y);
    }
    if trim(x + " me."@ + y) == x + " me."@ + y {
        lemma_phrase_22(x, y);
    }
    if trim(x + " Me "@ + y) == x + " Me "@ + y {
        lemma_phrase_23(x, y);
    }
    if trim(x + " Me,"@ + y) == x + " Me,"@ + y {
        lemma_phrase_24(x, y);
    }
    if trim(x + " Me."@ + y) == x + " Me."@ + y {
        lemma_phrase_25(x, y);
    }
    if trim(x + "\nI "@ + y) == x + "\nI "@ + y {
        lemma_phrase_26(x, y);
    }
    if trim(x + ". I "@ + y) == x + ". I "@ + y {
        lemma_phrase_27(x, y);
    }
    if trim(x + ". I,"@ + y) == x + ". I,"@ + y {
        lemma_phrase_28(x, y);
    }
    if trim(x + ". I."@ + y) == x + ". I."@ + y {
        lemma_phrase_29(x, y);
    }
    if trim(x + " I "@ + y) == x + " I "@ + y {
        lemma_phrase_30(x, y);
    }
    if trim(x + " I,"@ + y) == x + " I,"@ + y {
        lemma_phrase_31(x, y);
    }
    if trim(x + " I."@ + y) == x + " I."@ + y {
        lemma_phrase_32(x, y);
    }
    if trim(x + "Cards ¤(I am) attached to"@ + y) == x + "Cards ¤(I am) attached to"@ + y {
        lemma_phrase_33(x, y);
    }
    if trim(x + "cards ¤(I am) attached to"@ + y) == x + "cards ¤(I am) attached to"@ + y {
        lemma_phrase_34(x, y);
    }
}

} // verus!
