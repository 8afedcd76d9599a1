//! Rules-text commands of the printed cards in the `¤(name)` form.
use vstd::prelude::*;

use crate::text::{
    append_chars, append_str, char_utf8_len, count_char, find_char, find_char_from, find_pat,
    find_pat_from, from_chars, lemma_count_char_absent, lemma_count_char_add,
    lemma_count_char_single, replace_all, replace_str, seqs, split_chars, split_on, sub_chars,
    to_chars, trim, trim_chars, utf8_len,
};

verus! {

/// One attribute condition: `!name` reads as `non-name`.
pub open spec fn condition(a: Seq<char>) -> Seq<char> {
    if a.len() > 0 && a[0] == '!' {
        seq!['n', 'o', 'n', '-'] + a.skip(1)
    } else {
        a
    }
}

/// The comma-separated attribute conditions of `s` in words, each trimmed,
/// joined by `, `.
pub open spec fn attr_condition_string(s: Seq<char>) -> Seq<char> {
    split_on(s, ',').fold_left(
        Seq::<char>::empty(),
        |acc: Seq<char>, p: Seq<char>| acc + condition(trim(p)) + seq![',', ' '],
    ).drop_last().drop_last()
}

/// The comma-separated attribute conditions of `string` in words.
pub fn get_attr_condition_string(string: &str) -> (r: String)
    ensures
        r@ == attr_condition_string(string@),
{
    let v = to_chars(string);
    let attrs = split_chars(v.as_slice(), ',');
    let ghost ps = split_on(v@, ',');
    let ghost f = |acc: Seq<char>, p: Seq<char>| acc + condition(trim(p)) + seq![',', ' '];
    let mut out: Vec<char> = Vec::with_capacity(100);
    let mut i: usize = 0;
    while i < attrs.len()
        invariant
            i <= attrs.len(),
            seqs(attrs@) == ps,
            f == (|acc: Seq<char>, p: Seq<char>| acc + condition(trim(p)) + seq![',', ' ']),
            out@ == ps.take(i as int).fold_left(Seq::<char>::empty(), f),
        decreases attrs.len() - i,
    {
        let ghost before = out@;
        let attr = trim_chars(attrs[i].as_slice());
        assert(attr@ == trim(ps[i as int]));
        if attr.len() > 0 && attr[0] == '!' {
            out.push('n');
            out.push('o');
            out.push('n');
            out.push('-');
            let rest = sub_chars(attr.as_slice(), 1, attr.len());
            append_chars(&mut out, rest.as_slice());
        } else {
            append_chars(&mut out, attr.as_slice());
        }
        out.push(',');
        out.push(' ');
        assert(out@ =~= before + condition(attr@) + seq![',', ' ']);
        assert(ps.take(i + 1).drop_last() =~= ps.take(i as int));
        i += 1;
    }
    assert(ps.take(attrs.len() as int) =~= ps);
    proof {
        crate::text::lemma_split_on_nonempty(v@, ',');
        assert(out@ == ps.drop_last().fold_left(Seq::<char>::empty(), f) + condition(trim(ps.last()))
            + seq![',', ' ']);
    }
    let ghost full = out@;
    out.pop();
    out.pop();
    assert(out@ =~= full.drop_last().drop_last());
    from_chars(out.as_slice())
}

/// A part of a sequence holds a character no more often than the whole.
pub proof fn lemma_count_part(s: Seq<char>, i: int, j: int, c: char)
    requires
        0 <= i <= j <= s.len(),
    ensures
        count_char(s.subrange(i, j), c) <= count_char(s, c),
{
    let a = s.subrange(0, i);
    let b = s.subrange(i, j);
    let d = s.subrange(j, s.len() as int);
    assert(s =~= a + b + d);
    lemma_count_char_add(a, b, c);
    lemma_count_char_add(a + b, d, c);
}

/// Trimming does not add a character.
proof fn lemma_count_trim(s: Seq<char>, c: char)
    ensures
        count_char(trim(s), c) <= count_char(s, c),
{
    crate::text::lemma_trim_part(s);
    let (i, j) = choose|i: int, j: int| 0 <= i <= j <= s.len() && trim(s) == s.subrange(i, j);
    lemma_count_part(s, i, j, c);
}

/// Reading a condition in words adds no character but letters and `-`.
proof fn lemma_count_condition(a: Seq<char>, c: char)
    requires
        c != 'n' && c != 'o' && c != '-',
    ensures
        count_char(condition(a), c) <= count_char(a, c),
{
    if a.len() > 0 && a[0] == '!' {
        let non = seq!['n', 'o', 'n', '-'];
        assert(!non.contains(c)) by {
            if non.contains(c) {
                let k = choose|k: int| 0 <= k < 4 && non[k] == c;
            }
        }
        lemma_count_char_absent(non, c);
        lemma_count_char_add(non, a.skip(1), c);
        lemma_count_part(a, 1, a.len() as int, c);
        assert(a.skip(1) =~= a.subrange(1, a.len() as int));
    }
}

/// The number of times `c` occurs in all of the pieces together.
pub open spec fn count_in_pieces(ps: Seq<Seq<char>>, c: char) -> nat
    decreases ps.len(),
{
    if ps.len() == 0 {
        0
    } else {
        count_in_pieces(ps.drop_last(), c) + count_char(ps.last(), c)
    }
}

/// Splitting at another character keeps every occurrence of `c` in a piece.
proof fn lemma_count_split(s: Seq<char>, sep: char, c: char)
    requires
        sep != c,
    ensures
        count_in_pieces(split_on(s, sep), c) == count_char(s, c),
    decreases s.len(),
{
    reveal_with_fuel(count_in_pieces, 2);
    if s.len() == 0 {
        lemma_count_char_absent(Seq::<char>::empty(), c);
    } else {
        let init = s.drop_last();
        let p = split_on(init, sep);
        lemma_count_split(init, sep, c);
        crate::text::lemma_split_on_nonempty(init, sep);
        assert(s =~= init + seq![s.last()]);
        lemma_count_char_add(init, seq![s.last()], c);
        lemma_count_char_single(s.last(), c);
        if s.last() == sep {
            assert(p.push(Seq::<char>::empty()).drop_last() =~= p);
            lemma_count_char_absent(Seq::<char>::empty(), c);
        } else {
            let q = p.update(p.len() - 1, p.last().push(s.last()));
            assert(q.drop_last() =~= p.drop_last());
            assert(p.last().push(s.last()) =~= p.last() + seq![s.last()]);
            lemma_count_char_add(p.last(), seq![s.last()], c);
        }
    }
}

/// The conditions in words hold `c` no more often than the pieces they read.
proof fn lemma_count_fold(ps: Seq<Seq<char>>, c: char)
    requires
        c != 'n' && c != 'o' && c != '-' && c != ',' && c != ' ',
    ensures
        count_char(
            ps.fold_left(
                Seq::<char>::empty(),
                |acc: Seq<char>, p: Seq<char>| acc + condition(trim(p)) + seq![',', ' '],
            ),
            c,
        ) <= count_in_pieces(ps, c),
    decreases ps.len(),
{
    let f = |acc: Seq<char>, p: Seq<char>| acc + condition(trim(p)) + seq![',', ' '];
    if ps.len() == 0 {
        lemma_count_char_absent(Seq::<char>::empty(), c);
    } else {
        lemma_count_fold(ps.drop_last(), c);
        let acc = ps.drop_last().fold_left(Seq::<char>::empty(), f);
        let x = condition(trim(ps.last()));
        let sep = seq![',', ' '];
        assert(!sep.contains(c)) by {
            if sep.contains(c) {
                let k = choose|k: int| 0 <= k < 2 && sep[k] == c;
            }
        }
        lemma_count_char_absent(sep, c);
        lemma_count_char_add(acc, x, c);
        lemma_count_char_add(acc + x, sep, c);
        lemma_count_condition(trim(ps.last()), c);
        lemma_count_trim(ps.last(), c);
    }
}

/// The conditions in words hold `¤` no more often than the text they read.
pub proof fn lemma_count_attr_condition(s: Seq<char>)
    ensures
        count_char(attr_condition_string(s), '\u{a4}') <= count_char(s, '\u{a4}'),
{
    let f = |acc: Seq<char>, p: Seq<char>| acc + condition(trim(p)) + seq![',', ' '];
    let full = split_on(s, ',').fold_left(Seq::<char>::empty(), f);
    lemma_count_fold(split_on(s, ','), '\u{a4}');
    lemma_count_split(s, ',', '\u{a4}');
    crate::text::lemma_split_on_nonempty(s, ',');
    assert(full.len() >= 2);
    lemma_count_part(full, 0, full.len() - 2, '\u{a4}');
    assert(full.drop_last().drop_last() =~= full.subrange(0, full.len() - 2));
}

/// The fixed commands of the `¤(name)` form replaced by their words, in order.
pub open spec fn replace_fixed_bracket(s: Seq<char>) -> Seq<char> {
    let s = replace_all(s, "¤(ho)"@, "Hand Only"@);
    let s = replace_all(s, "¤(co)"@, "Combat Only"@);
    let s = replace_all(s, "¤(any_phase)"@, "Any Phase"@);
    let s = replace_all(s, "¤(flip)"@, "Flip"@);
    let s = replace_all(s, "¤(quick)"@, "Quick"@);
    let s = replace_all(s, "¤(instant)"@, "Instant"@);
    let s = replace_all(s, "¤(passing)"@, "Passing"@);
    let s = replace_all(s, "¤(Choose_your_c)"@, "Choose a card you control"@);
    let s = replace_all(s, "¤(choose_your_c)"@, "choose a card you control"@);
    let s = replace_all(s, "¤(Boost)"@, "Boost"@);
    let s = replace_all(s, "¤(Boost)"@, "boost"@);
    let s = replace_all(s, "¤(I have)"@, "This card has"@);
    let s = replace_all(s, "¤(i have)"@, "this card has"@);
    let s = replace_all(s, "¤(C_to_lane)"@, "Card's lane"@);
    let s = replace_all(s, "¤(c_to_lane)"@, "card's lane"@);
    let s = replace_all(s, "¤(Choose_your_pos)"@, "Choose a position on your board"@);
    let s = replace_all(s, "¤(choose_your_pos)"@, "choose a position on your board"@);
    let s = replace_all(s, "¤(Choose_your_r)"@, "Choose one of your reserves"@);
    let s = replace_all(s, "¤(choose_your_r)"@, "choose one of your reserves"@);
    let s = replace_all(s, "¤(Choose_your_cpos)"@, "Choose one of your field positions"@);
    let s = replace_all(s, "¤(choose_your_cpos)"@, "choose one of your field positions"@);
    let s = replace_all(s, "¤(Pos_to_lane)"@, "Position's lane"@);
    let s = replace_all(s, "¤(pos_to_lane)"@, "position's lane"@);
    let s = replace_all(s, "¤(Move_me_to_r)"@, "Move this card to the chosen reserve"@);
    let s = replace_all(s, "¤(move_me_to_r)"@, "move this card to the chosen reserve"@);
    let s = replace_all(s, "¤(Attach_me_to_chosen)"@, "Attach this card to the chosen card"@);
    let s = replace_all(s, "¤(attach_me_to_chosen)"@, "attach this card to the chosen card"@);
    let s = replace_all(s, "¤(Xp)"@, "XP"@);
    let s = replace_all(s, "¤(xp)"@, "XP"@);
    let s = replace_all(s, "¤(Mana)"@, "Mana"@);
    let s = replace_all(s, "¤(mana)"@, "mana"@);
    let s = replace_all(s, "¤(Me)"@, "This card"@);
    let s = replace_all(s, "¤(me)"@, "this card"@);
    let s = replace_all(s, "¤(I)"@, "This card"@);
    let s = replace_all(s, "¤(I am)"@, "This card is"@);
    let s = replace_all(s, "¤(i)"@, "this card"@);
    let s = replace_all(s, "¤(i am)"@, "this card is"@);
    let s = replace_all(s, "¤(my)"@, "this card's"@);
    let s = replace_all(s, "¤(My)"@, "This card's"@);
    let s = replace_all(s, "¤(Set_my_pos_to_chosen)"@, "Move this card to the chosen position"@);
    let s = replace_all(s, "¤(set_my_pos_to_chosen)"@, "move this card to the chosen position"@);
    s
}

/// The fixed commands of the `¤(name)` form replaced by their words.
pub fn replace_fixed_bracket_commands(string: &str) -> (r: String)
    ensures
        r@ == replace_fixed_bracket(string@),
{
    let v = to_chars(string);
    proof {
        reveal_strlit("¤(ho)");
    }
    let v = replace_str(v.as_slice(), "¤(ho)", "Hand Only");
    proof {
        reveal_strlit("¤(co)");
    }
    let v = replace_str(v.as_slice(), "¤(co)", "Combat Only");
    proof {
        reveal_strlit("¤(any_phase)");
    }
    let v = replace_str(v.as_slice(), "¤(any_phase)", "Any Phase");
    proof {
        reveal_strlit("¤(flip)");
    }
    let v = replace_str(v.as_slice(), "¤(flip)", "Flip");
    proof {
        reveal_strlit("¤(quick)");
    }
    let v = replace_str(v.as_slice(), "¤(quick)", "Quick");
    proof {
        reveal_strlit("¤(instant)");
    }
    let v = replace_str(v.as_slice(), "¤(instant)", "Instant");
    proof {
        reveal_strlit("¤(passing)");
    }
    let v = replace_str(v.as_slice(), "¤(passing)", "Passing");
    proof {
        reveal_strlit("¤(Choose_your_c)");
    }
    let v = replace_str(v.as_slice(), "¤(Choose_your_c)", "Choose a card you control");
    proof {
        reveal_strlit("¤(choose_your_c)");
    }
    let v = replace_str(v.as_slice(), "¤(choose_your_c)", "choose a card you control");
    proof {
        reveal_strlit("¤(Boost)");
    }
    let v = replace_str(v.as_slice(), "¤(Boost)", "Boost");
    proof {
        reveal_strlit("¤(Boost)");
    }
    let v = replace_str(v.as_slice(), "¤(Boost)", "boost");
    proof {
        reveal_strlit("¤(I have)");
    }
    let v = replace_str(v.as_slice(), "¤(I have)", "This card has");
    proof {
        reveal_strlit("¤(i have)");
    }
    let v = replace_str(v.as_slice(), "¤(i have)", "this card has");
    proof {
        reveal_strlit("¤(C_to_lane)");
    }
    let v = replace_str(v.as_slice(), "¤(C_to_lane)", "Card's lane");
    proof {
        reveal_strlit("¤(c_to_lane)");
    }
    let v = replace_str(v.as_slice(), "¤(c_to_lane)", "card's lane");
    proof {
        reveal_strlit("¤(Choose_your_pos)");
    }
    let v = replace_str(v.as_slice(), "¤(Choose_your_pos)", "Choose a position on your board");
    proof {
        reveal_strlit("¤(choose_your_pos)");
    }
    let v = replace_str(v.as_slice(), "¤(choose_your_pos)", "choose a position on your board");
    proof {
        reveal_strlit("¤(Choose_your_r)");
    }
    let v = replace_str(v.as_slice(), "¤(Choose_your_r)", "Choose one of your reserves");
    proof {
        reveal_strlit("¤(choose_your_r)");
    }
    let v = replace_str(v.as_slice(), "¤(choose_your_r)", "choose one of your reserves");
    proof {
        reveal_strlit("¤(Choose_your_cpos)");
    }
    let v = replace_str(v.as_slice(), "¤(Choose_your_cpos)", "Choose one of your field positions");
    proof {
        reveal_strlit("¤(choose_your_cpos)");
    }
    let v = replace_str(v.as_slice(), "¤(choose_your_cpos)", "choose one of your field positions");
    proof {
        reveal_strlit("¤(Pos_to_lane)");
    }
    let v = replace_str(v.as_slice(), "¤(Pos_to_lane)", "Position's lane");
    proof {
        reveal_strlit("¤(pos_to_lane)");
    }
    let v = replace_str(v.as_slice(), "¤(pos_to_lane)", "position's lane");
    proof {
        reveal_strlit("¤(Move_me_to_r)");
    }
    let v = replace_str(v.as_slice(), "¤(Move_me_to_r)", "Move this card to the chosen reserve");
    proof {
        reveal_strlit("¤(move_me_to_r)");
    }
    let v = replace_str(v.as_slice(), "¤(move_me_to_r)", "move this card to the chosen reserve");
    proof {
        reveal_strlit("¤(Attach_me_to_chosen)");
    }
    let v = replace_str(v.as_slice(), "¤(Attach_me_to_chosen)", "Attach this card to the chosen card");
    proof {
        reveal_strlit("¤(attach_me_to_chosen)");
    }
    let v = replace_str(v.as_slice(), "¤(attach_me_to_chosen)", "attach this card to the chosen card");
    proof {
        reveal_strlit("¤(Xp)");
    }
    let v = replace_str(v.as_slice(), "¤(Xp)", "XP");
    proof {
        reveal_strlit("¤(xp)");
    }
    let v = replace_str(v.as_slice(), "¤(xp)", "XP");
    proof {
        reveal_strlit("¤(Mana)");
    }
    let v = replace_str(v.as_slice(), "¤(Mana)", "Mana");
    proof {
        reveal_strlit("¤(mana)");
    }
    let v = replace_str(v.as_slice(), "¤(mana)", "mana");
    proof {
        reveal_strlit("¤(Me)");
    }
    let v = replace_str(v.as_slice(), "¤(Me)", "This card");
    proof {
        reveal_strlit("¤(me)");
    }
    let v = replace_str(v.as_slice(), "¤(me)", "this card");
    proof {
        reveal_strlit("¤(I)");
    }
    let v = replace_str(v.as_slice(), "¤(I)", "This card");
    proof {
        reveal_strlit("¤(I am)");
    }
    let v = replace_str(v.as_slice(), "¤(I am)", "This card is");
    proof {
        reveal_strlit("¤(i)");
    }
    let v = replace_str(v.as_slice(), "¤(i)", "this card");
    proof {
        reveal_strlit("¤(i am)");
    }
    let v = replace_str(v.as_slice(), "¤(i am)", "this card is");
    proof {
        reveal_strlit("¤(my)");
    }
    let v = replace_str(v.as_slice(), "¤(my)", "this card's");
    proof {
        reveal_strlit("¤(My)");
    }
    let v = replace_str(v.as_slice(), "¤(My)", "This card's");
    proof {
        reveal_strlit("¤(Set_my_pos_to_chosen)");
    }
    let v = replace_str(v.as_slice(), "¤(Set_my_pos_to_chosen)", "Move this card to the chosen position");
    proof {
        reveal_strlit("¤(set_my_pos_to_chosen)");
    }
    let v = replace_str(v.as_slice(), "¤(set_my_pos_to_chosen)", "move this card to the chosen position");
    from_chars(v.as_slice())
}

/// The commands at the end of rules text: `¤(zone)` and `¤(Zone)`.
pub open spec fn replace_zone(s: Seq<char>) -> Seq<char> {
    let s = replace_all(s, "¤(zone)"@, "zone"@);
    replace_all(s, "¤(Zone)"@, "Zone"@)
}

/// `¤(zone)` and `¤(Zone)` replaced by their words.
pub fn replace_zone_commands(string: &str) -> (r: String)
    ensures
        r@ == replace_zone(string@),
{
    let v = to_chars(string);
    proof {
        reveal_strlit("¤(zone)");
        reveal_strlit("¤(Zone)");
    }
    let v = replace_str(v.as_slice(), "¤(zone)", "zone");
    let v = replace_str(v.as_slice(), "¤(Zone)", "Zone");
    from_chars(v.as_slice())
}

/// The commands of the `¤(name(parameter))` form whose words follow from the
/// parameter text alone.
#[derive(Clone, Copy, Debug, PartialEq, Eq)]
pub enum ParamCommand {
    /// `¤(p_gives_one(attribute, ...))`: "has the attribute attribute".
    GivesOne,
    /// `¤(p_gives_many(attribute, ...))`: "have the attribute attribute".
    GivesMany,
    /// `¤(Cswa(conditions))`: cards with the conditions, capitalised.
    CardsWith,
    /// `¤(cswa(conditions))`: cards with the conditions.
    CardsWithLower,
    /// `¤(Cwa(conditions))`: a card with the conditions, capitalised.
    CardWith,
    /// `¤(cwa(conditions))`: a card with the conditions.
    CardWithLower,
    /// `¤(Pay(cost))`.
    Pay,
    /// `¤(pay(cost))`.
    PayLower,
    /// `¤(Sum(cost))`: the summoning rule.
    Summon,
    /// `¤(Evo(cost))`: the evolving rule.
    Evolve,
    /// `¤(Equ(cost))`: the equipping rule.
    Equip,
    /// `¤(Cswsn(word))`: "word cards".
    WordCards,
    /// `¤(cswsn(word))`: "word cards".
    WordCardsLower,
    /// `¤(Cwsn(word))`: "word card".
    WordCard,
    /// `¤(cwsn(word))`: "word card".
    WordCardLower,
    /// `¤(Cswosn(word))`: "Non-word cards".
    NonWordCards,
    /// `¤(cswosn(word))`: "non-word cards".
    NonWordCardsLower,
    /// `¤(Cwosn(word))`: "Non-word card".
    NonWordCard,
    /// `¤(cwosn(word))`: "non-word card".
    NonWordCardLower,
}

/// The text that opens a command, up to the `(` of its parameter.
pub open spec fn command_marker(k: ParamCommand) -> Seq<char> {
    match k {
        ParamCommand::GivesOne => "¤(p_gives_one("@,
        ParamCommand::GivesMany => "¤(p_gives_many("@,
        ParamCommand::CardsWith => "¤(Cswa("@,
        ParamCommand::CardsWithLower => "¤(cswa("@,
        ParamCommand::CardWith => "¤(Cwa("@,
        ParamCommand::CardWithLower => "¤(cwa("@,
        ParamCommand::Pay => "¤(Pay("@,
        ParamCommand::PayLower => "¤(pay("@,
        ParamCommand::Summon => "¤(Sum("@,
        ParamCommand::Evolve => "¤(Evo("@,
        ParamCommand::Equip => "¤(Equ("@,
        ParamCommand::WordCards => "¤(Cswsn("@,
        ParamCommand::WordCardsLower => "¤(cswsn("@,
        ParamCommand::WordCard => "¤(Cwsn("@,
        ParamCommand::WordCardLower => "¤(cwsn("@,
        ParamCommand::NonWordCards => "¤(Cswosn("@,
        ParamCommand::NonWordCardsLower => "¤(cswosn("@,
        ParamCommand::NonWordCard => "¤(Cwosn("@,
        ParamCommand::NonWordCardLower => "¤(cwosn("@,
    }
}

/// Every marker starts with the only `¤` it holds.
proof fn lemma_command_marker(k: ParamCommand)
    ensures
        command_marker(k).len() >= 2,
        command_marker(k)[0] == '\u{a4}',
        count_char(command_marker(k), '\u{a4}') == 1,
{
    reveal_strlit("¤(p_gives_one(");
    reveal_strlit("¤(p_gives_many(");
    reveal_strlit("¤(Cswa(");
    reveal_strlit("¤(cswa(");
    reveal_strlit("¤(Cwa(");
    reveal_strlit("¤(cwa(");
    reveal_strlit("¤(Pay(");
    reveal_strlit("¤(pay(");
    reveal_strlit("¤(Sum(");
    reveal_strlit("¤(Evo(");
    reveal_strlit("¤(Equ(");
    reveal_strlit("¤(Cswsn(");
    reveal_strlit("¤(cswsn(");
    reveal_strlit("¤(Cwsn(");
    reveal_strlit("¤(cwsn(");
    reveal_strlit("¤(Cswosn(");
    reveal_strlit("¤(cswosn(");
    reveal_strlit("¤(Cwosn(");
    reveal_strlit("¤(cwosn(");
    let m = command_marker(k);
    let rest = m.skip(1);
    assert(!rest.contains('\u{a4}')) by {
        if rest.contains('\u{a4}') {
            let j = choose|j: int| 0 <= j < rest.len() && rest[j] == '\u{a4}';
            assert(m[j + 1] == '\u{a4}');
        }
    }
    lemma_count_char_absent(rest, '\u{a4}');
    assert(m =~= seq![m[0]] + rest);
    lemma_count_char_add(seq![m[0]], rest, '\u{a4}');
    lemma_count_char_single(m[0], '\u{a4}');
}

/// The text that opens command `k`.
fn marker_chars(k: ParamCommand) -> (r: Vec<char>)
    ensures
        r@ == command_marker(k),
{
    match k {
        ParamCommand::GivesOne => to_chars("¤(p_gives_one("),
        ParamCommand::GivesMany => to_chars("¤(p_gives_many("),
        ParamCommand::CardsWith => to_chars("¤(Cswa("),
        ParamCommand::CardsWithLower => to_chars("¤(cswa("),
        ParamCommand::CardWith => to_chars("¤(Cwa("),
        ParamCommand::CardWithLower => to_chars("¤(cwa("),
        ParamCommand::Pay => to_chars("¤(Pay("),
        ParamCommand::PayLower => to_chars("¤(pay("),
        ParamCommand::Summon => to_chars("¤(Sum("),
        ParamCommand::Evolve => to_chars("¤(Evo("),
        ParamCommand::Equip => to_chars("¤(Equ("),
        ParamCommand::WordCards => to_chars("¤(Cswsn("),
        ParamCommand::WordCardsLower => to_chars("¤(cswsn("),
        ParamCommand::WordCard => to_chars("¤(Cwsn("),
        ParamCommand::WordCardLower => to_chars("¤(cwsn("),
        ParamCommand::NonWordCards => to_chars("¤(Cswosn("),
        ParamCommand::NonWordCardsLower => to_chars("¤(cswosn("),
        ParamCommand::NonWordCard => to_chars("¤(Cwosn("),
        ParamCommand::NonWordCardLower => to_chars("¤(cwosn("),
    }
}

/// The attribute that a parameter names: its first comma-separated piece,
/// trimmed.
pub open spec fn first_attribute(p: Seq<char>) -> Seq<char> {
    trim(split_on(p, ',')[0])
}

/// The conditions of a parameter in words, with a capital first letter where
/// they open with `non-`.
pub open spec fn capitalized_conditions(p: Seq<char>) -> Seq<char> {
    let a = attr_condition_string(p);
    if a.len() > 0 && a[0] == 'n' {
        seq!['N'] + a.skip(1)
    } else {
        a
    }
}

/// The words that command `k` with parameter `p` stands for.
pub open spec fn command_text(k: ParamCommand, p: Seq<char>) -> Seq<char> {
    match k {
        ParamCommand::GivesOne => "has the "@ + first_attribute(p) + " attribute"@,
        ParamCommand::GivesMany => "have the "@ + first_attribute(p) + " attribute"@,
        ParamCommand::CardsWith => capitalized_conditions(p) + " cards"@,
        ParamCommand::CardsWithLower => attr_condition_string(p) + " cards"@,
        ParamCommand::CardWith => capitalized_conditions(p) + " card"@,
        ParamCommand::CardWithLower => attr_condition_string(p) + " card"@,
        ParamCommand::Pay => "Pay "@ + p,
        ParamCommand::PayLower => "pay "@ + p,
        ParamCommand::Summon => "Move this card to an empty friendly field position of your choice, then pay "@
            + p + "."@,
        ParamCommand::Evolve => "Move this card to a friendly reserve of your choice, then pay "@ + p
            + "."@,
        ParamCommand::Equip => "Attach this card to a friendly non-attached card of your choice, then pay "@
            + p + "."@,
        ParamCommand::WordCards | ParamCommand::WordCardsLower => p + " cards"@,
        ParamCommand::WordCard | ParamCommand::WordCardLower => p + " card"@,
        ParamCommand::NonWordCards => "Non-"@ + p + " cards"@,
        ParamCommand::NonWordCardsLower => "non-"@ + p + " cards"@,
        ParamCommand::NonWordCard => "Non-"@ + p + " card"@,
        ParamCommand::NonWordCardLower => "non-"@ + p + " card"@,
    }
}

/// The first piece of a split holds a character no more often than all the
/// pieces together.
proof fn lemma_count_first_piece(ps: Seq<Seq<char>>, c: char)
    requires
        ps.len() >= 1,
    ensures
        count_char(ps[0], c) <= count_in_pieces(ps, c),
    decreases ps.len(),
{
    if ps.len() > 1 {
        lemma_count_first_piece(ps.drop_last(), c);
        assert(ps.drop_last()[0] == ps[0]);
    } else {
        assert(ps.drop_last().len() == 0);
    }
}

/// A text without `¤` counts it zero times.
proof fn lemma_no_mark(s: Seq<char>)
    requires
        !s.contains('\u{a4}'),
    ensures
        count_char(s, '\u{a4}') == 0,
{
    lemma_count_char_absent(s, '\u{a4}');
}

/// The words of a command hold `¤` no more often than its parameter.
pub proof fn lemma_count_command_text(k: ParamCommand, p: Seq<char>)
    ensures
        count_char(command_text(k, p), '\u{a4}') <= count_char(p, '\u{a4}'),
{
    let m = '\u{a4}';
    reveal_strlit("has the ");
    reveal_strlit("have the ");
    reveal_strlit(" attribute");
    reveal_strlit(" cards");
    reveal_strlit(" card");
    reveal_strlit("Pay ");
    reveal_strlit("pay ");
    reveal_strlit(".");
    reveal_strlit("Move this card to an empty friendly field position of your choice, then pay ");
    reveal_strlit("Move this card to a friendly reserve of your choice, then pay ");
    reveal_strlit("Attach this card to a friendly non-attached card of your choice, then pay ");
    reveal_strlit("Non-");
    reveal_strlit("non-");
    let a = attr_condition_string(p);
    lemma_count_attr_condition(p);
    crate::text::lemma_split_on_nonempty(p, ',');
    lemma_count_first_piece(split_on(p, ','), m);
    lemma_count_split(p, ',', m);
    lemma_count_trim(split_on(p, ',')[0], m);
    let f = first_attribute(p);
    if a.len() > 0 && a[0] == 'n' {
        lemma_no_mark(seq!['N']);
        lemma_count_char_add(seq!['N'], a.skip(1), m);
        lemma_count_part(a, 1, a.len() as int, m);
        assert(a.skip(1) =~= a.subrange(1, a.len() as int));
    }
    let cap = capitalized_conditions(p);
    match k {
        ParamCommand::GivesOne => {
            lemma_no_mark("has the "@);
            lemma_no_mark(" attribute"@);
            lemma_count_char_add("has the "@, f, m);
            lemma_count_char_add("has the "@ + f, " attribute"@, m);
        },
        ParamCommand::GivesMany => {
            lemma_no_mark("have the "@);
            lemma_no_mark(" attribute"@);
            lemma_count_char_add("have the "@, f, m);
            lemma_count_char_add("have the "@ + f, " attribute"@, m);
        },
        ParamCommand::CardsWith => {
            lemma_no_mark(" cards"@);
            lemma_count_char_add(cap, " cards"@, m);
        },
        ParamCommand::CardsWithLower => {
            lemma_no_mark(" cards"@);
            lemma_count_char_add(a, " cards"@, m);
        },
        ParamCommand::CardWith => {
            lemma_no_mark(" card"@);
            lemma_count_char_add(cap, " card"@, m);
        },
        ParamCommand::CardWithLower => {
            lemma_no_mark(" card"@);
            lemma_count_char_add(a, " card"@, m);
        },
        ParamCommand::Pay => {
            lemma_no_mark("Pay "@);
            lemma_count_char_add("Pay "@, p, m);
        },
        ParamCommand::PayLower => {
            lemma_no_mark("pay "@);
            lemma_count_char_add("pay "@, p, m);
        },
        ParamCommand::Summon => {
            let w = "Move this card to an empty friendly field position of your choice, then pay "@;
            lemma_no_mark(w);
            lemma_no_mark("."@);
            lemma_count_char_add(w, p, m);
            lemma_count_char_add(w + p, "."@, m);
        },
        ParamCommand::Evolve => {
            let w = "Move this card to a friendly reserve of your choice, then pay "@;
            lemma_no_mark(w);
            lemma_no_mark("."@);
            lemma_count_char_add(w, p, m);
            lemma_count_char_add(w + p, "."@, m);
        },
        ParamCommand::Equip => {
            let w = "Attach this card to a friendly non-attached card of your choice, then pay "@;
            lemma_no_mark(w);
            lemma_no_mark("."@);
            lemma_count_char_add(w, p, m);
            lemma_count_char_add(w + p, "."@, m);
        },
        ParamCommand::WordCards | ParamCommand::WordCardsLower => {
            lemma_no_mark(" cards"@);
            lemma_count_char_add(p, " cards"@, m);
        },
        ParamCommand::WordCard | ParamCommand::WordCardLower => {
            lemma_no_mark(" card"@);
            lemma_count_char_add(p, " card"@, m);
        },
        ParamCommand::NonWordCards | ParamCommand::NonWordCardsLower | ParamCommand::NonWordCard
        | ParamCommand::NonWordCardLower => {
            let head = if k == ParamCommand::NonWordCards || k == ParamCommand::NonWordCard {
                "Non-"@
            } else {
                "non-"@
            };
            let tail = if k == ParamCommand::NonWordCards || k == ParamCommand::NonWordCardsLower {
                " cards"@
            } else {
                " card"@
            };
            lemma_no_mark(head);
            lemma_no_mark(tail);
            lemma_count_char_add(head, p, m);
            lemma_count_char_add(head + p, tail, m);
        },
    }
}

/// The words of the conditions in `p`.
fn conditions_chars(p: &[char]) -> (r: Vec<char>)
    ensures
        r@ == attr_condition_string(p@),
{
    let s = from_chars(p);
    let a = get_attr_condition_string(s.as_str());
    to_chars(a.as_str())
}

/// The attribute that the parameter `p` names.
fn first_attribute_chars(p: &[char]) -> (r: Vec<char>)
    ensures
        r@ == first_attribute(p@),
{
    let pieces = split_chars(p, ',');
    proof {
        crate::text::lemma_split_on_nonempty(p@, ',');
        assert(pieces@[0]@ == seqs(pieces@)[0]);
    }
    trim_chars(pieces[0].as_slice())
}

/// The words of command `k` with parameter `p`.
fn command_text_chars(k: ParamCommand, p: &[char]) -> (r: Vec<char>)
    ensures
        r@ == command_text(k, p@),
{
    match k {
        ParamCommand::GivesOne => {
            let mut out = to_chars("has the ");
            let attr = first_attribute_chars(p);
            append_chars(&mut out, attr.as_slice());
            append_str(&mut out, " attribute");
            out
        },
        ParamCommand::GivesMany => {
            let mut out = to_chars("have the ");
            let attr = first_attribute_chars(p);
            append_chars(&mut out, attr.as_slice());
            append_str(&mut out, " attribute");
            out
        },
        ParamCommand::CardsWith | ParamCommand::CardWith => {
            let a = conditions_chars(p);
            let mut out: Vec<char> = Vec::new();
            if a.len() > 0 && a[0] == 'n' {
                out.push('N');
                let rest = sub_chars(a.as_slice(), 1, a.len());
                append_chars(&mut out, rest.as_slice());
                assert(out@ =~= seq!['N'] + a@.skip(1));
            } else {
                append_chars(&mut out, a.as_slice());
                assert(out@ =~= a@);
            }
            match k {
                ParamCommand::CardsWith => append_str(&mut out, " cards"),
                _ => append_str(&mut out, " card"),
            }
            out
        },
        ParamCommand::CardsWithLower | ParamCommand::CardWithLower => {
            let mut out = conditions_chars(p);
            match k {
                ParamCommand::CardsWithLower => append_str(&mut out, " cards"),
                _ => append_str(&mut out, " card"),
            }
            out
        },
        ParamCommand::Pay => {
            let mut out = to_chars("Pay ");
            append_chars(&mut out, p);
            out
        },
        ParamCommand::PayLower => {
            let mut out = to_chars("pay ");
            append_chars(&mut out, p);
            out
        },
        ParamCommand::Summon => {
            let mut out = to_chars(
                "Move this card to an empty friendly field position of your choice, then pay ",
            );
            append_chars(&mut out, p);
            append_str(&mut out, ".");
            out
        },
        ParamCommand::Evolve => {
            let mut out = to_chars("Move this card to a friendly reserve of your choice, then pay ");
            append_chars(&mut out, p);
            append_str(&mut out, ".");
            out
        },
        ParamCommand::Equip => {
            let mut out = to_chars(
                "Attach this card to a friendly non-attached card of your choice, then pay ",
            );
            append_chars(&mut out, p);
            append_str(&mut out, ".");
            out
        },
        ParamCommand::WordCards | ParamCommand::WordCardsLower => {
            let mut out: Vec<char> = Vec::new();
            append_chars(&mut out, p);
            append_str(&mut out, " cards");
            assert(out@ =~= p@ + " cards"@);
            out
        },
        ParamCommand::WordCard | ParamCommand::WordCardLower => {
            let mut out: Vec<char> = Vec::new();
            append_chars(&mut out, p);
            append_str(&mut out, " card");
            assert(out@ =~= p@ + " card"@);
            out
        },
        ParamCommand::NonWordCards => {
            let mut out = to_chars("Non-");
            append_chars(&mut out, p);
            append_str(&mut out, " cards");
            out
        },
        ParamCommand::NonWordCardsLower => {
            let mut out = to_chars("non-");
            append_chars(&mut out, p);
            append_str(&mut out, " cards");
            out
        },
        ParamCommand::NonWordCard => {
            let mut out = to_chars("Non-");
            append_chars(&mut out, p);
            append_str(&mut out, " card");
            out
        },
        ParamCommand::NonWordCardLower => {
            let mut out = to_chars("non-");
            append_chars(&mut out, p);
            append_str(&mut out, " card");
            out
        },
    }
}

/// Expands command `k` at `pos`: the parameter, up to the first `)`, gives
/// the command's words, and the `)` and the byte after it are consumed.
/// `None` where there is no `)`, or where no one-byte character follows it.
pub open spec fn command_step(s: Seq<char>, k: ParamCommand, pos: int) -> Option<Seq<char>> {
    let start = pos + command_marker(k).len();
    match find_char_from(s, ')', start) {
        None => None,
        Some(end) => if end + 1 < s.len() && utf8_len(s[end + 1]) == 1 {
            Some(
                s.subrange(0, pos) + command_text(k, s.subrange(start, end)) + s.subrange(
                    end + 2,
                    s.len() as int,
                ),
            )
        } else {
            None
        },
    }
}

/// `s` with the commands `k` expanded, always the first next, taking at most
/// `steps` steps. `None` where a step fails.
pub open spec fn expand_command_steps(s: Seq<char>, k: ParamCommand, steps: nat) -> Option<
    Seq<char>,
>
    decreases steps,
{
    match find_pat_from(s, command_marker(k), 0) {
        None => Some(s),
        Some(pos) => match command_step(s, k, pos) {
            None => None,
            Some(t) => if steps == 0 {
                None
            } else {
                expand_command_steps(t, k, (steps - 1) as nat)
            },
        },
    }
}

/// `s` with the commands `k` expanded; `None` where a step fails.
pub open spec fn expand_command(s: Seq<char>, k: ParamCommand) -> Option<Seq<char>> {
    expand_command_steps(s, k, count_char(s, '\u{a4}'))
}

/// `s` with the commands of `ks` expanded, one kind after the other.
/// `None` where a step fails.
pub open spec fn expand_commands_in(s: Seq<char>, ks: Seq<ParamCommand>) -> Option<Seq<char>>
    decreases ks.len(),
{
    if ks.len() == 0 {
        Some(s)
    } else {
        match expand_command(s, ks[0]) {
            None => None,
            Some(t) => expand_commands_in(t, ks.skip(1)),
        }
    }
}

/// One expansion of command `k` at `pos`, where the text has its marker.
fn command_step_chars(v: &[char], k: ParamCommand, pos: usize, marker: &Vec<char>) -> (r: Option<
    Vec<char>,
>)
    requires
        marker@ == command_marker(k),
        find_pat_from(v@, command_marker(k), 0) == Some(pos as int),
    ensures
        match r {
            Some(t) => command_step(v@, k, pos as int) == Some(t@) && count_char(t@, '\u{a4}')
                < count_char(v@, '\u{a4}'),
            None => command_step(v@, k, pos as int) is None,
        },
{
    let ghost m = command_marker(k);
    proof {
        crate::text::lemma_find_pat_from(v@, m, 0);
        lemma_command_marker(k);
        assert(v@.subrange(pos as int, pos + m.len()) == m);
        assert(pos + m.len() <= v.len());
    }
    let start = pos + marker.len();
    proof {
        crate::text::lemma_find_char_from(v@, ')', start as int);
    }
    match find_char(v, ')', start) {
        None => None,
        Some(end) => {
            if end + 1 < v.len() && char_utf8_len(v[end + 1]) == 1 {
                let mut out = sub_chars(v, 0, pos);
                let ghost pre = out@;
                let param = sub_chars(v, start, end);
                let words = command_text_chars(k, param.as_slice());
                append_chars(&mut out, words.as_slice());
                let rest = sub_chars(v, end + 2, v.len());
                append_chars(&mut out, rest.as_slice());
                proof {
                    let tail2 = seq![v@[end as int], v@[end + 1]];
                    assert(out@ =~= pre + words@ + rest@);
                    assert(v@ =~= pre + m + param@ + tail2 + rest@);
                    assert(v@[end + 1] != '\u{a4}');
                    lemma_count_char_absent(tail2, '\u{a4}');
                    lemma_count_command_text(k, param@);
                    lemma_count_char_add(pre, words@, '\u{a4}');
                    lemma_count_char_add(pre + words@, rest@, '\u{a4}');
                    lemma_count_char_add(pre, m, '\u{a4}');
                    lemma_count_char_add(pre + m, param@, '\u{a4}');
                    lemma_count_char_add(pre + m + param@, tail2, '\u{a4}');
                    lemma_count_char_add(pre + m + param@ + tail2, rest@, '\u{a4}');
                }
                Some(out)
            } else {
                None
            }
        },
    }
}

/// `v` with the commands `k` expanded; `None` where a step fails.
fn expand_command_chars(v: Vec<char>, k: ParamCommand) -> (r: Option<Vec<char>>)
    ensures
        match r {
            Some(t) => expand_command(v@, k) == Some(t@),
            None => expand_command(v@, k) is None,
        },
{
    let ghost orig = v@;
    let mut cur = v;
    let ghost mut fuel: int = count_char(orig, '\u{a4}') as int;
    let marker = marker_chars(k);
    loop
        invariant
            orig == v@,
            marker@ == command_marker(k),
            fuel >= count_char(cur@, '\u{a4}'),
            expand_command(orig, k) == expand_command_steps(cur@, k, fuel as nat),
        decreases count_char(cur@, '\u{a4}'),
    {
        proof {
            crate::text::lemma_find_pat_from(cur@, command_marker(k), 0);
        }
        match find_pat(cur.as_slice(), marker.as_slice(), 0) {
            None => {
                return Some(cur);
            },
            Some(pos) => {
                match command_step_chars(cur.as_slice(), k, pos, &marker) {
                    None => {
                        return None;
                    },
                    Some(t) => {
                        assert(expand_command_steps(cur@, k, fuel as nat) == expand_command_steps(
                            t@,
                            k,
                            (fuel - 1) as nat,
                        ));
                        proof {
                            fuel = fuel - 1;
                        }
                        cur = t;
                    },
                }
            },
        }
    }
}

/// `string` with the commands of `ks` expanded, one kind after the other, or
/// `None` where one is malformed: it has no `)`, or no one-byte character
/// follows its `)`.
pub fn try_expand_param_commands(string: &str, ks: &Vec<ParamCommand>) -> (r: Option<String>)
    ensures
        match r {
            Some(t) => expand_commands_in(string@, ks@) == Some(t@),
            None => expand_commands_in(string@, ks@) is None,
        },
{
    let mut cur = to_chars(string);
    let mut i: usize = 0;
    assert(ks@.skip(0) =~= ks@);
    while i < ks.len()
        invariant
            i <= ks.len(),
            expand_commands_in(string@, ks@) == expand_commands_in(cur@, ks@.skip(i as int)),
        decreases ks.len() - i,
    {
        let k = ks[i];
        assert(ks@.skip(i as int)[0] == k);
        assert(ks@.skip(i as int).skip(1) =~= ks@.skip(i + 1));
        match expand_command_chars(cur, k) {
            None => {
                return None;
            },
            Some(t) => {
                cur = t;
            },
        }
        i += 1;
    }
    Some(from_chars(cur.as_slice()))
}

/// `string` with the commands of `ks` expanded, one kind after the other.
pub fn expand_param_commands(string: &str, ks: &Vec<ParamCommand>) -> (r: String)
    requires
        expand_commands_in(string@, ks@) is Some,
    ensures
        r@ == expand_commands_in(string@, ks@).unwrap(),
{
    match try_expand_param_commands(string, ks) {
        Some(t) => t,
        None => String::new(),
    }
}

// ---------------------------------------------------------------------------
// Laws
// ---------------------------------------------------------------------------

/// Rules text without `¤` holds no command: every stage of expanding the
/// `¤(name)` commands leaves it unchanged.
pub proof fn lemma_bracket_text_without_commands_unchanged(s: Seq<char>, ks: Seq<ParamCommand>)
    requires
        !s.contains('\u{a4}'),
    ensures
        replace_fixed_bracket(s) == s,
        expand_commands_in(s, ks) == Some(s),
        replace_zone(s) == s,
    decreases ks.len(),
{
    reveal_strlit("¤(ho)");
    reveal_strlit("¤(co)");
    reveal_strlit("¤(any_phase)");
    reveal_strlit("¤(flip)");
    reveal_strlit("¤(quick)");
    reveal_strlit("¤(instant)");
    reveal_strlit("¤(passing)");
    reveal_strlit("¤(Choose_your_c)");
    reveal_strlit("¤(choose_your_c)");
    reveal_strlit("¤(Boost)");
    reveal_strlit("¤(I have)");
    reveal_strlit("¤(i have)");
    reveal_strlit("¤(C_to_lane)");
    reveal_strlit("¤(c_to_lane)");
    reveal_strlit("¤(Choose_your_pos)");
    reveal_strlit("¤(choose_your_pos)");
    reveal_strlit("¤(Choose_your_r)");
    reveal_strlit("¤(choose_your_r)");
    reveal_strlit("¤(Choose_your_cpos)");
    reveal_strlit("¤(choose_your_cpos)");
    reveal_strlit("¤(Pos_to_lane)");
    reveal_strlit("¤(pos_to_lane)");
    reveal_strlit("¤(Move_me_to_r)");
    reveal_strlit("¤(move_me_to_r)");
    reveal_strlit("¤(Attach_me_to_chosen)");
    reveal_strlit("¤(attach_me_to_chosen)");
    reveal_strlit("¤(Xp)");
    reveal_strlit("¤(xp)");
    reveal_strlit("¤(Mana)");
    reveal_strlit("¤(mana)");
    reveal_strlit("¤(Me)");
    reveal_strlit("¤(me)");
    reveal_strlit("¤(I)");
    reveal_strlit("¤(I am)");
    reveal_strlit("¤(i)");
    reveal_strlit("¤(i am)");
    reveal_strlit("¤(my)");
    reveal_strlit("¤(My)");
    reveal_strlit("¤(Set_my_pos_to_chosen)");
    reveal_strlit("¤(set_my_pos_to_chosen)");
    reveal_strlit("¤(zone)");
    reveal_strlit("¤(Zone)");
    crate::text::lemma_replace_absent(s, "¤(ho)"@, "Hand Only"@);
    crate::text::lemma_replace_absent(s, "¤(co)"@, "Combat Only"@);
    crate::text::lemma_replace_absent(s, "¤(any_phase)"@, "Any Phase"@);
    crate::text::lemma_replace_absent(s, "¤(flip)"@, "Flip"@);
    crate::text::lemma_replace_absent(s, "¤(quick)"@, "Quick"@);
    crate::text::lemma_replace_absent(s, "¤(instant)"@, "Instant"@);
    crate::text::lemma_replace_absent(s, "¤(passing)"@, "Passing"@);
    crate::text::lemma_replace_absent(s, "¤(Choose_your_c)"@, "Choose a card you control"@);
    crate::text::lemma_replace_absent(s, "¤(choose_your_c)"@, "choose a card you control"@);
    crate::text::lemma_replace_absent(s, "¤(Boost)"@, "Boost"@);
    crate::text::lemma_replace_absent(s, "¤(Boost)"@, "boost"@);
    crate::text::lemma_replace_absent(s, "¤(I have)"@, "This card has"@);
    crate::text::lemma_replace_absent(s, "¤(i have)"@, "this card has"@);
    crate::text::lemma_replace_absent(s, "¤(C_to_lane)"@, "Card's lane"@);
    crate::text::lemma_replace_absent(s, "¤(c_to_lane)"@, "card's lane"@);
    crate::text::lemma_replace_absent(s, "¤(Choose_your_pos)"@, "Choose a position on your board"@);
    crate::text::lemma_replace_absent(s, "¤(choose_your_pos)"@, "choose a position on your board"@);
    crate::text::lemma_replace_absent(s, "¤(Choose_your_r)"@, "Choose one of your reserves"@);
    crate::text::lemma_replace_absent(s, "¤(choose_your_r)"@, "choose one of your reserves"@);
    crate::text::lemma_replace_absent(s, "¤(Choose_your_cpos)"@, "Choose one of your field positions"@);
    crate::text::lemma_replace_absent(s, "¤(choose_your_cpos)"@, "choose one of your field positions"@);
    crate::text::lemma_replace_absent(s, "¤(Pos_to_lane)"@, "Position's lane"@);
    crate::text::lemma_replace_absent(s, "¤(pos_to_lane)"@, "position's lane"@);
    crate::text::lemma_replace_absent(s, "¤(Move_me_to_r)"@, "Move this card to the chosen reserve"@);
    crate::text::lemma_replace_absent(s, "¤(move_me_to_r)"@, "move this card to the chosen reserve"@);
    crate::text::lemma_replace_absent(s, "¤(Attach_me_to_chosen)"@, "Attach this card to the chosen card"@);
    crate::text::lemma_replace_absent(s, "¤(attach_me_to_chosen)"@, "attach this card to the chosen card"@);
    crate::text::lemma_replace_absent(s, "¤(Xp)"@, "XP"@);
    crate::text::lemma_replace_absent(s, "¤(xp)"@, "XP"@);
    crate::text::lemma_replace_absent(s, "¤(Mana)"@, "Mana"@);
    crate::text::lemma_replace_absent(s, "¤(mana)"@, "mana"@);
    crate::text::lemma_replace_absent(s, "¤(Me)"@, "This card"@);
    crate::text::lemma_replace_absent(s, "¤(me)"@, "this card"@);
    crate::text::lemma_replace_absent(s, "¤(I)"@, "This card"@);
    crate::text::lemma_replace_absent(s, "¤(I am)"@, "This card is"@);
    crate::text::lemma_replace_absent(s, "¤(i)"@, "this card"@);
    crate::text::lemma_replace_absent(s, "¤(i am)"@, "this card is"@);
    crate::text::lemma_replace_absent(s, "¤(my)"@, "this card's"@);
    crate::text::lemma_replace_absent(s, "¤(My)"@, "This card's"@);
    crate::text::lemma_replace_absent(s, "¤(Set_my_pos_to_chosen)"@, "Move this card to the chosen position"@);
    crate::text::lemma_replace_absent(s, "¤(set_my_pos_to_chosen)"@, "move this card to the chosen position"@);
    crate::text::lemma_replace_absent(s, "¤(zone)"@, "zone"@);
    crate::text::lemma_replace_absent(s, "¤(Zone)"@, "Zone"@);
    if ks.len() > 0 {
        lemma_command_marker(ks[0]);
        crate::text::lemma_find_pat_absent(s, command_marker(ks[0]), 0);
        lemma_bracket_text_without_commands_unchanged(s, ks.skip(1));
    }
}

/// Expanding the commands of one kind, where it succeeds, leaves none of
/// that kind.
pub proof fn lemma_no_command_left(s: Seq<char>, k: ParamCommand, steps: nat)
    requires
        expand_command_steps(s, k, steps) is Some,
    ensures
        find_pat_from(expand_command_steps(s, k, steps).unwrap(), command_marker(k), 0) is None,
    decreases steps,
{
    if let Some(pos) = find_pat_from(s, command_marker(k), 0) {
        let t = command_step(s, k, pos).unwrap();
        lemma_no_command_left(t, k, (steps - 1) as nat);
    }
}

/// Where expanding the commands of one kind succeeds, none of that kind is
/// left.
pub proof fn lemma_expand_command_leaves_none(s: Seq<char>, k: ParamCommand)
    requires
        expand_command(s, k) is Some,
    ensures
        find_pat_from(expand_command(s, k).unwrap(), command_marker(k), 0) is None,
{
    lemma_no_command_left(s, k, count_char(s, '\u{a4}'));
}

// Each fixed command, on its own.

/// `¤(ho)`, then a space and a text without `¤`: the command becomes `Hand Only`.
proof fn lemma_bracket_command_0(t: Seq<char>)
    requires
        !t.contains('\u{a4}'),
    ensures
        replace_fixed_bracket("¤(ho)"@ + seq![' '] + t) == "Hand Only"@ + seq![' '] + t,
{
    reveal_strlit("Any Phase");
    reveal_strlit("Attach this card to the chosen card");
    reveal_strlit("Boost");
    reveal_strlit("Card's lane");
    reveal_strlit("Choose a card you control");
    reveal_strlit("Choose a position on your board");
    reveal_strlit("Choose one of your field positions");
    reveal_strlit("Choose one of your reserves");
    reveal_strlit("Combat Only");
    reveal_strlit("Flip");
    reveal_strlit("Hand Only");
    reveal_strlit("Instant");
    reveal_strlit("Mana");
    reveal_strlit("Move this card to the chosen position");
    reveal_strlit("Move this card to the chosen reserve");
    reveal_strlit("Passing");
    reveal_strlit("Position's lane");
    reveal_strlit("Quick");
    reveal_strlit("This card");
    reveal_strlit("This card has");
    reveal_strlit("This card is");
    reveal_strlit("This card's");
    reveal_strlit("XP");
    reveal_strlit("attach this card to the chosen card");
    reveal_strlit("boost");
    reveal_strlit("card's lane");
    reveal_strlit("choose a card you control");
    reveal_strlit("choose a position on your board");
    reveal_strlit("choose one of your field positions");
    reveal_strlit("choose one of your reserves");
    reveal_strlit("mana");
    reveal_strlit("move this card to the chosen position");
    reveal_strlit("move this card to the chosen reserve");
    reveal_strlit("position's lane");
    reveal_strlit("this card");
    reveal_strlit("this card has");
    reveal_strlit("this card is");
    reveal_strlit("this card's");
    reveal_strlit("¤(Attach_me_to_chosen)");
    reveal_strlit("¤(Boost)");
    reveal_strlit("¤(C_to_lane)");
    reveal_strlit("¤(Choose_your_c)");
    reveal_strlit("¤(Choose_your_cpos)");
    reveal_strlit("¤(Choose_your_pos)");
    reveal_strlit("¤(Choose_your_r)");
    reveal_strlit("¤(I am)");
    reveal_strlit("¤(I have)");
    reveal_strlit("¤(I)");
    reveal_strlit("¤(Mana)");
    reveal_strlit("¤(Me)");
    reveal_strlit("¤(Move_me_to_r)");
    reveal_strlit("¤(My)");
    reveal_strlit("¤(Pos_to_lane)");
    reveal_strlit("¤(Set_my_pos_to_chosen)");
    reveal_strlit("¤(Xp)");
    reveal_strlit("¤(any_phase)");
    reveal_strlit("¤(attach_me_to_chosen)");
    reveal_strlit("¤(c_to_lane)");
    reveal_strlit("¤(choose_your_c)");
    reveal_strlit("¤(choose_your_cpos)");
    reveal_strlit("¤(choose_your_pos)");
    reveal_strlit("¤(choose_your_r)");
    reveal_strlit("¤(co)");
    reveal_strlit("¤(flip)");
    reveal_strlit("¤(ho)");
    reveal_strlit("¤(i am)");
    reveal_strlit("¤(i have)");
    reveal_strlit("¤(i)");
    reveal_strlit("¤(instant)");
    reveal_strlit("¤(mana)");
    reveal_strlit("¤(me)");
    reveal_strlit("¤(move_me_to_r)");
    reveal_strlit("¤(my)");
    reveal_strlit("¤(passing)");
    reveal_strlit("¤(pos_to_lane)");
    reveal_strlit("¤(quick)");
    reveal_strlit("¤(set_my_pos_to_chosen)");
    reveal_strlit("¤(xp)");
    let s0 = "¤(ho)"@ + seq![' '] + t;
    crate::text::lemma_mark_only_at_start("¤(ho)"@, t);
    assert(s0.subrange(0, "¤(ho)"@.len() as int) =~= "¤(ho)"@);
    crate::text::lemma_replace_at_start(s0, "¤(ho)"@, "Hand Only"@);
    let s1 = "Hand Only"@ + seq![' '] + t;
    assert(s0.subrange("¤(ho)"@.len() as int, s0.len() as int) =~= seq![' '] + t);
    assert("Hand Only"@ + (seq![' '] + t) =~= s1);
    crate::text::lemma_no_mark_joined("Hand Only"@, t);
    crate::text::lemma_replace_absent(s1, "¤(co)"@, "Combat Only"@);
    crate::text::lemma_replace_absent(s1, "¤(any_phase)"@, "Any Phase"@);
    crate::text::lemma_replace_absent(s1, "¤(flip)"@, "Flip"@);
    crate::text::lemma_replace_absent(s1, "¤(quick)"@, "Quick"@);
    crate::text::lemma_replace_absent(s1, "¤(instant)"@, "Instant"@);
    crate::text::lemma_replace_absent(s1, "¤(passing)"@, "Passing"@);
    crate::text::lemma_replace_absent(s1, "¤(Choose_your_c)"@, "Choose a card you control"@);
    crate::text::lemma_replace_absent(s1, "¤(choose_your_c)"@, "choose a card you control"@);
    crate::text::lemma_replace_absent(s1, "¤(Boost)"@, "Boost"@);
    crate::text::lemma_replace_absent(s1, "¤(Boost)"@, "boost"@);
    crate::text::lemma_replace_absent(s1, "¤(I have)"@, "This card has"@);
    crate::text::lemma_replace_absent(s1, "¤(i have)"@, "this card has"@);
    crate::text::lemma_replace_absent(s1, "¤(C_to_lane)"@, "Card's lane"@);
    crate::text::lemma_replace_absent(s1, "¤(c_to_lane)"@, "card's lane"@);
    crate::text::lemma_replace_absent(s1, "¤(Choose_your_pos)"@, "Choose a position on your board"@);
    crate::text::lemma_replace_absent(s1, "¤(choose_your_pos)"@, "choose a position on your board"@);
    crate::text::lemma_replace_absent(s1, "¤(Choose_your_r)"@, "Choose one of your reserves"@);
    crate::text::lemma_replace_absent(s1, "¤(choose_your_r)"@, "choose one of your reserves"@);
    crate::text::lemma_replace_absent(s1, "¤(Choose_your_cpos)"@, "Choose one of your field positions"@);
    crate::text::lemma_replace_absent(s1, "¤(choose_your_cpos)"@, "choose one of your field positions"@);
    crate::text::lemma_replace_absent(s1, "¤(Pos_to_lane)"@, "Position's lane"@);
    crate::text::lemma_replace_absent(s1, "¤(pos_to_lane)"@, "position's lane"@);
    crate::text::lemma_replace_absent(s1, "¤(Move_me_to_r)"@, "Move this card to the chosen reserve"@);
    crate::text::lemma_replace_absent(s1, "¤(move_me_to_r)"@, "move this card to the chosen reserve"@);
    crate::text::lemma_replace_absent(s1, "¤(Attach_me_to_chosen)"@, "Attach this card to the chosen card"@);
    crate::text::lemma_replace_absent(s1, "¤(attach_me_to_chosen)"@, "attach this card to the chosen card"@);
    crate::text::lemma_replace_absent(s1, "¤(Xp)"@, "XP"@);
    crate::text::lemma_replace_absent(s1, "¤(xp)"@, "XP"@);
    crate::text::lemma_replace_absent(s1, "¤(Mana)"@, "Mana"@);
    crate::text::lemma_replace_absent(s1, "¤(mana)"@, "mana"@);
    crate::text::lemma_replace_absent(s1, "¤(Me)"@, "This card"@);
    crate::text::lemma_replace_absent(s1, "¤(me)"@, "this card"@);
    crate::text::lemma_replace_absent(s1, "¤(I)"@, "This card"@);
    crate::text::lemma_replace_absent(s1, "¤(I am)"@, "This card is"@);
    crate::text::lemma_replace_absent(s1, "¤(i)"@, "this card"@);
    crate::text::lemma_replace_absent(s1, "¤(i am)"@, "this card is"@);
    crate::text::lemma_replace_absent(s1, "¤(my)"@, "this card's"@);
    crate::text::lemma_replace_absent(s1, "¤(My)"@, "This card's"@);
    crate::text::lemma_replace_absent(s1, "¤(Set_my_pos_to_chosen)"@, "Move this card to the chosen position"@);
    crate::text::lemma_replace_absent(s1, "¤(set_my_pos_to_chosen)"@, "move this card to the chosen position"@);
}

/// `¤(co)`, then a space and a text without `¤`: the command becomes `Combat Only`.
proof fn lemma_bracket_command_1(t: Seq<char>)
    requires
        !t.contains('\u{a4}'),
    ensures
        replace_fixed_bracket("¤(co)"@ + seq![' '] + t) == "Combat Only"@ + seq![' '] + t,
{
    reveal_strlit("Any Phase");
    reveal_strlit("Attach this card to the chosen card");
    reveal_strlit("Boost");
    reveal_strlit("Card's lane");
    reveal_strlit("Choose a card you control");
    reveal_strlit("Choose a position on your board");
    reveal_strlit("Choose one of your field positions");
    reveal_strlit("Choose one of your reserves");
    reveal_strlit("Combat Only");
    reveal_strlit("Flip");
    reveal_strlit("Hand Only");
    reveal_strlit("Instant");
    reveal_strlit("Mana");
    reveal_strlit("Move this card to the chosen position");
    reveal_strlit("Move this card to the chosen reserve");
    reveal_strlit("Passing");
    reveal_strlit("Position's lane");
    reveal_strlit("Quick");
    reveal_strlit("This card");
    reveal_strlit("This card has");
    reveal_strlit("This card is");
    reveal_strlit("This card's");
    reveal_strlit("XP");
    reveal_strlit("attach this card to the chosen card");
    reveal_strlit("boost");
    reveal_strlit("card's lane");
    reveal_strlit("choose a card you control");
    reveal_strlit("choose a position on your board");
    reveal_strlit("choose one of your field positions");
    reveal_strlit("choose one of your reserves");
    reveal_strlit("mana");
    reveal_strlit("move this card to the chosen position");
    reveal_strlit("move this card to the chosen reserve");
    reveal_strlit("position's lane");
    reveal_strlit("this card");
    reveal_strlit("this card has");
    reveal_strlit("this card is");
    reveal_strlit("this card's");
    reveal_strlit("¤(Attach_me_to_chosen)");
    reveal_strlit("¤(Boost)");
    reveal_strlit("¤(C_to_lane)");
    reveal_strlit("¤(Choose_your_c)");
    reveal_strlit("¤(Choose_your_cpos)");
    reveal_strlit("¤(Choose_your_pos)");
    reveal_strlit("¤(Choose_your_r)");
    reveal_strlit("¤(I am)");
    reveal_strlit("¤(I have)");
    reveal_strlit("¤(I)");
    reveal_strlit("¤(Mana)");
    reveal_strlit("¤(Me)");
    reveal_strlit("¤(Move_me_to_r)");
    reveal_strlit("¤(My)");
    reveal_strlit("¤(Pos_to_lane)");
    reveal_strlit("¤(Set_my_pos_to_chosen)");
    reveal_strlit("¤(Xp)");
    reveal_strlit("¤(any_phase)");
    reveal_strlit("¤(attach_me_to_chosen)");
    reveal_strlit("¤(c_to_lane)");
    reveal_strlit("¤(choose_your_c)");
    reveal_strlit("¤(choose_your_cpos)");
    reveal_strlit("¤(choose_your_pos)");
    reveal_strlit("¤(choose_your_r)");
    reveal_strlit("¤(co)");
    reveal_strlit("¤(flip)");
    reveal_strlit("¤(ho)");
    reveal_strlit("¤(i am)");
    reveal_strlit("¤(i have)");
    reveal_strlit("¤(i)");
    reveal_strlit("¤(instant)");
    reveal_strlit("¤(mana)");
    reveal_strlit("¤(me)");
    reveal_strlit("¤(move_me_to_r)");
    reveal_strlit("¤(my)");
    reveal_strlit("¤(passing)");
    reveal_strlit("¤(pos_to_lane)");
    reveal_strlit("¤(quick)");
    reveal_strlit("¤(set_my_pos_to_chosen)");
    reveal_strlit("¤(xp)");
    let s0 = "¤(co)"@ + seq![' '] + t;
    crate::text::lemma_mark_only_at_start("¤(co)"@, t);
    crate::text::lemma_replace_mismatch_at_start(s0, "¤(ho)"@, "Hand Only"@, 2);
    assert(s0.subrange(0, "¤(co)"@.len() as int) =~= "¤(co)"@);
    crate::text::lemma_replace_at_start(s0, "¤(co)"@, "Combat Only"@);
    let s1 = "Combat Only"@ + seq![' '] + t;
    assert(s0.subrange("¤(co)"@.len() as int, s0.len() as int) =~= seq![' '] + t);
    assert("Combat Only"@ + (seq![' '] + t) =~= s1);
    crate::text::lemma_no_mark_joined("Combat Only"@, t);
    crate::text::lemma_replace_absent(s1, "¤(any_phase)"@, "Any Phase"@);
    crate::text::lemma_replace_absent(s1, "¤(flip)"@, "Flip"@);
    crate::text::lemma_replace_absent(s1, "¤(quick)"@, "Quick"@);
    crate::text::lemma_replace_absent(s1, "¤(instant)"@, "Instant"@);
    crate::text::lemma_replace_absent(s1, "¤(passing)"@, "Passing"@);
    crate::text::lemma_replace_absent(s1, "¤(Choose_your_c)"@, "Choose a card you control"@);
    crate::text::lemma_replace_absent(s1, "¤(choose_your_c)"@, "choose a card you control"@);
    crate::text::lemma_replace_absent(s1, "¤(Boost)"@, "Boost"@);
    crate::text::lemma_replace_absent(s1, "¤(Boost)"@, "boost"@);
    crate::text::lemma_replace_absent(s1, "¤(I have)"@, "This card has"@);
    crate::text::lemma_replace_absent(s1, "¤(i have)"@, "this card has"@);
    crate::text::lemma_replace_absent(s1, "¤(C_to_lane)"@, "Card's lane"@);
    crate::text::lemma_replace_absent(s1, "¤(c_to_lane)"@, "card's lane"@);
    crate::text::lemma_replace_absent(s1, "¤(Choose_your_pos)"@, "Choose a position on your board"@);
    crate::text::lemma_replace_absent(s1, "¤(choose_your_pos)"@, "choose a position on your board"@);
    crate::text::lemma_replace_absent(s1, "¤(Choose_your_r)"@, "Choose one of your reserves"@);
    crate::text::lemma_replace_absent(s1, "¤(choose_your_r)"@, "choose one of your reserves"@);
    crate::text::lemma_replace_absent(s1, "¤(Choose_your_cpos)"@, "Choose one of your field positions"@);
    crate::text::lemma_replace_absent(s1, "¤(choose_your_cpos)"@, "choose one of your field positions"@);
    crate::text::lemma_replace_absent(s1, "¤(Pos_to_lane)"@, "Position's lane"@);
    crate::text::lemma_replace_absent(s1, "¤(pos_to_lane)"@, "position's lane"@);
    crate::text::lemma_replace_absent(s1, "¤(Move_me_to_r)"@, "Move this card to the chosen reserve"@);
    crate::text::lemma_replace_absent(s1, "¤(move_me_to_r)"@, "move this card to the chosen reserve"@);
    crate::text::lemma_replace_absent(s1, "¤(Attach_me_to_chosen)"@, "Attach this card to the chosen card"@);
    crate::text::lemma_replace_absent(s1, "¤(attach_me_to_chosen)"@, "attach this card to the chosen card"@);
    crate::text::lemma_replace_absent(s1, "¤(Xp)"@, "XP"@);
    crate::text::lemma_replace_absent(s1, "¤(xp)"@, "XP"@);
    crate::text::lemma_replace_absent(s1, "¤(Mana)"@, "Mana"@);
    crate::text::lemma_replace_absent(s1, "¤(mana)"@, "mana"@);
    crate::text::lemma_replace_absent(s1, "¤(Me)"@, "This card"@);
    crate::text::lemma_replace_absent(s1, "¤(me)"@, "this card"@);
    crate::text::lemma_replace_absent(s1, "¤(I)"@, "This card"@);
    crate::text::lemma_replace_absent(s1, "¤(I am)"@, "This card is"@);
    crate::text::lemma_replace_absent(s1, "¤(i)"@, "this card"@);
    crate::text::lemma_replace_absent(s1, "¤(i am)"@, "this card is"@);
    crate::text::lemma_replace_absent(s1, "¤(my)"@, "this card's"@);
    crate::text::lemma_replace_absent(s1, "¤(My)"@, "This card's"@);
    crate::text::lemma_replace_absent(s1, "¤(Set_my_pos_to_chosen)"@, "Move this card to the chosen position"@);
    crate::text::lemma_replace_absent(s1, "¤(set_my_pos_to_chosen)"@, "move this card to the chosen position"@);
}

/// `¤(any_phase)`, then a space and a text without `¤`: the command becomes `Any Phase`.
proof fn lemma_bracket_command_2(t: Seq<char>)
    requires
        !t.contains('\u{a4}'),
    ensures
        replace_fixed_bracket("¤(any_phase)"@ + seq![' '] + t) == "Any Phase"@ + seq![' '] + t,
{
    reveal_strlit("Any Phase");
    reveal_strlit("Attach this card to the chosen card");
    reveal_strlit("Boost");
    reveal_strlit("Card's lane");
    reveal_strlit("Choose a card you control");
    reveal_strlit("Choose a position on your board");
    reveal_strlit("Choose one of your field positions");
    reveal_strlit("Choose one of your reserves");
    reveal_strlit("Combat Only");
    reveal_strlit("Flip");
    reveal_strlit("Hand Only");
    reveal_strlit("Instant");
    reveal_strlit("Mana");
    reveal_strlit("Move this card to the chosen position");
    reveal_strlit("Move this card to the chosen reserve");
    reveal_strlit("Passing");
    reveal_strlit("Position's lane");
    reveal_strlit("Quick");
    reveal_strlit("This card");
    reveal_strlit("This card has");
    reveal_strlit("This card is");
    reveal_strlit("This card's");
    reveal_strlit("XP");
    reveal_strlit("attach this card to the chosen card");
    reveal_strlit("boost");
    reveal_strlit("card's lane");
    reveal_strlit("choose a card you control");
    reveal_strlit("choose a position on your board");
    reveal_strlit("choose one of your field positions");
    reveal_strlit("choose one of your reserves");
    reveal_strlit("mana");
    reveal_strlit("move this card to the chosen position");
    reveal_strlit("move this card to the chosen reserve");
    reveal_strlit("position's lane");
    reveal_strlit("this card");
    reveal_strlit("this card has");
    reveal_strlit("this card is");
    reveal_strlit("this card's");
    reveal_strlit("¤(Attach_me_to_chosen)");
    reveal_strlit("¤(Boost)");
    reveal_strlit("¤(C_to_lane)");
    reveal_strlit("¤(Choose_your_c)");
    reveal_strlit("¤(Choose_your_cpos)");
    reveal_strlit("¤(Choose_your_pos)");
    reveal_strlit("¤(Choose_your_r)");
    reveal_strlit("¤(I am)");
    reveal_strlit("¤(I have)");
    reveal_strlit("¤(I)");
    reveal_strlit("¤(Mana)");
    reveal_strlit("¤(Me)");
    reveal_strlit("¤(Move_me_to_r)");
    reveal_strlit("¤(My)");
    reveal_strlit("¤(Pos_to_lane)");
    reveal_strlit("¤(Set_my_pos_to_chosen)");
    reveal_strlit("¤(Xp)");
    reveal_strlit("¤(any_phase)");
    reveal_strlit("¤(attach_me_to_chosen)");
    reveal_strlit("¤(c_to_lane)");
    reveal_strlit("¤(choose_your_c)");
    reveal_strlit("¤(choose_your_cpos)");
    reveal_strlit("¤(choose_your_pos)");
    reveal_strlit("¤(choose_your_r)");
    reveal_strlit("¤(co)");
    reveal_strlit("¤(flip)");
    reveal_strlit("¤(ho)");
    reveal_strlit("¤(i am)");
    reveal_strlit("¤(i have)");
    reveal_strlit("¤(i)");
    reveal_strlit("¤(instant)");
    reveal_strlit("¤(mana)");
    reveal_strlit("¤(me)");
    reveal_strlit("¤(move_me_to_r)");
    reveal_strlit("¤(my)");
    reveal_strlit("¤(passing)");
    reveal_strlit("¤(pos_to_lane)");
    reveal_strlit("¤(quick)");
    reveal_strlit("¤(set_my_pos_to_chosen)");
    reveal_strlit("¤(xp)");
    let s0 = "¤(any_phase)"@ + seq![' '] + t;
    crate::text::lemma_mark_only_at_start("¤(any_phase)"@, t);
    crate::text::lemma_replace_mismatch_at_start(s0, "¤(ho)"@, "Hand Only"@, 2);
    crate::text::lemma_replace_mismatch_at_start(s0, "¤(co)"@, "Combat Only"@, 2);
    assert(s0.subrange(0, "¤(any_phase)"@.len() as int) =~= "¤(any_phase)"@);
    crate::text::lemma_replace_at_start(s0, "¤(any_phase)"@, "Any Phase"@);
    let s1 = "Any Phase"@ + seq![' '] + t;
    assert(s0.subrange("¤(any_phase)"@.len() as int, s0.len() as int) =~= seq![' '] + t);
    assert("Any Phase"@ + (seq![' '] + t) =~= s1);
    crate::text::lemma_no_mark_joined("Any Phase"@, t);
    crate::text::lemma_replace_absent(s1, "¤(flip)"@, "Flip"@);
    crate::text::lemma_replace_absent(s1, "¤(quick)"@, "Quick"@);
    crate::text::lemma_replace_absent(s1, "¤(instant)"@, "Instant"@);
    crate::text::lemma_replace_absent(s1, "¤(passing)"@, "Passing"@);
    crate::text::lemma_replace_absent(s1, "¤(Choose_your_c)"@, "Choose a card you control"@);
    crate::text::lemma_replace_absent(s1, "¤(choose_your_c)"@, "choose a card you control"@);
    crate::text::lemma_replace_absent(s1, "¤(Boost)"@, "Boost"@);
    crate::text::lemma_replace_absent(s1, "¤(Boost)"@, "boost"@);
    crate::text::lemma_replace_absent(s1, "¤(I have)"@, "This card has"@);
    crate::text::lemma_replace_absent(s1, "¤(i have)"@, "this card has"@);
    crate::text::lemma_replace_absent(s1, "¤(C_to_lane)"@, "Card's lane"@);
    crate::text::lemma_replace_absent(s1, "¤(c_to_lane)"@, "card's lane"@);
    crate::text::lemma_replace_absent(s1, "¤(Choose_your_pos)"@, "Choose a position on your board"@);
    crate::text::lemma_replace_absent(s1, "¤(choose_your_pos)"@, "choose a position on your board"@);
    crate::text::lemma_replace_absent(s1, "¤(Choose_your_r)"@, "Choose one of your reserves"@);
    crate::text::lemma_replace_absent(s1, "¤(choose_your_r)"@, "choose one of your reserves"@);
    crate::text::lemma_replace_absent(s1, "¤(Choose_your_cpos)"@, "Choose one of your field positions"@);
    crate::text::lemma_replace_absent(s1, "¤(choose_your_cpos)"@, "choose one of your field positions"@);
    crate::text::lemma_replace_absent(s1, "¤(Pos_to_lane)"@, "Position's lane"@);
    crate::text::lemma_replace_absent(s1, "¤(pos_to_lane)"@, "position's lane"@);
    crate::text::lemma_replace_absent(s1, "¤(Move_me_to_r)"@, "Move this card to the chosen reserve"@);
    crate::text::lemma_replace_absent(s1, "¤(move_me_to_r)"@, "move this card to the chosen reserve"@);
    crate::text::lemma_replace_absent(s1, "¤(Attach_me_to_chosen)"@, "Attach this card to the chosen card"@);
    crate::text::lemma_replace_absent(s1, "¤(attach_me_to_chosen)"@, "attach this card to the chosen card"@);
    crate::text::lemma_replace_absent(s1, "¤(Xp)"@, "XP"@);
    crate::text::lemma_replace_absent(s1, "¤(xp)"@, "XP"@);
    crate::text::lemma_replace_absent(s1, "¤(Mana)"@, "Mana"@);
    crate::text::lemma_replace_absent(s1, "¤(mana)"@, "mana"@);
    crate::text::lemma_replace_absent(s1, "¤(Me)"@, "This card"@);
    crate::text::lemma_replace_absent(s1, "¤(me)"@, "this card"@);
    crate::text::lemma_replace_absent(s1, "¤(I)"@, "This card"@);
    crate::text::lemma_replace_absent(s1, "¤(I am)"@, "This card is"@);
    crate::text::lemma_replace_absent(s1, "¤(i)"@, "this card"@);
    crate::text::lemma_replace_absent(s1, "¤(i am)"@, "this card is"@);
    crate::text::lemma_replace_absent(s1, "¤(my)"@, "this card's"@);
    crate::text::lemma_replace_absent(s1, "¤(My)"@, "This card's"@);
    crate::text::lemma_replace_absent(s1, "¤(Set_my_pos_to_chosen)"@, "Move this card to the chosen position"@);
    crate::text::lemma_replace_absent(s1, "¤(set_my_pos_to_chosen)"@, "move this card to the chosen position"@);
}

/// `¤(flip)`, then a space and a text without `¤`: the command becomes `Flip`.
proof fn lemma_bracket_command_3(t: Seq<char>)
    requires
        !t.contains('\u{a4}'),
    ensures
        replace_fixed_bracket("¤(flip)"@ + seq![' '] + t) == "Flip"@ + seq![' '] + t,
{
    reveal_strlit("Any Phase");
    reveal_strlit("Attach this card to the chosen card");
    reveal_strlit("Boost");
    reveal_strlit("Card's lane");
    reveal_strlit("Choose a card you control");
    reveal_strlit("Choose a position on your board");
    reveal_strlit("Choose one of your field positions");
    reveal_strlit("Choose one of your reserves");
    reveal_strlit("Combat Only");
    reveal_strlit("Flip");
    reveal_strlit("Hand Only");
    reveal_strlit("Instant");
    reveal_strlit("Mana");
    reveal_strlit("Move this card to the chosen position");
    reveal_strlit("Move this card to the chosen reserve");
    reveal_strlit("Passing");
    reveal_strlit("Position's lane");
    reveal_strlit("Quick");
    reveal_strlit("This card");
    reveal_strlit("This card has");
    reveal_strlit("This card is");
    reveal_strlit("This card's");
    reveal_strlit("XP");
    reveal_strlit("attach this card to the chosen card");
    reveal_strlit("boost");
    reveal_strlit("card's lane");
    reveal_strlit("choose a card you control");
    reveal_strlit("choose a position on your board");
    reveal_strlit("choose one of your field positions");
    reveal_strlit("choose one of your reserves");
    reveal_strlit("mana");
    reveal_strlit("move this card to the chosen position");
    reveal_strlit("move this card to the chosen reserve");
    reveal_strlit("position's lane");
    reveal_strlit("this card");
    reveal_strlit("this card has");
    reveal_strlit("this card is");
    reveal_strlit("this card's");
    reveal_strlit("¤(Attach_me_to_chosen)");
    reveal_strlit("¤(Boost)");
    reveal_strlit("¤(C_to_lane)");
    reveal_strlit("¤(Choose_your_c)");
    reveal_strlit("¤(Choose_your_cpos)");
    reveal_strlit("¤(Choose_your_pos)");
    reveal_strlit("¤(Choose_your_r)");
    reveal_strlit("¤(I am)");
    reveal_strlit("¤(I have)");
    reveal_strlit("¤(I)");
    reveal_strlit("¤(Mana)");
    reveal_strlit("¤(Me)");
    reveal_strlit("¤(Move_me_to_r)");
    reveal_strlit("¤(My)");
    reveal_strlit("¤(Pos_to_lane)");
    reveal_strlit("¤(Set_my_pos_to_chosen)");
    reveal_strlit("¤(Xp)");
    reveal_strlit("¤(any_phase)");
    reveal_strlit("¤(attach_me_to_chosen)");
    reveal_strlit("¤(c_to_lane)");
    reveal_strlit("¤(choose_your_c)");
    reveal_strlit("¤(choose_your_cpos)");
    reveal_strlit("¤(choose_your_pos)");
    reveal_strlit("¤(choose_your_r)");
    reveal_strlit("¤(co)");
    reveal_strlit("¤(flip)");
    reveal_strlit("¤(ho)");
    reveal_strlit("¤(i am)");
    reveal_strlit("¤(i have)");
    reveal_strlit("¤(i)");
    reveal_strlit("¤(instant)");
    reveal_strlit("¤(mana)");
    reveal_strlit("¤(me)");
    reveal_strlit("¤(move_me_to_r)");
    reveal_strlit("¤(my)");
    reveal_strlit("¤(passing)");
    reveal_strlit("¤(pos_to_lane)");
    reveal_strlit("¤(quick)");
    reveal_strlit("¤(set_my_pos_to_chosen)");
    reveal_strlit("¤(xp)");
    let s0 = "¤(flip)"@ + seq![' '] + t;
    crate::text::lemma_mark_only_at_start("¤(flip)"@, t);
    crate::text::lemma_replace_mismatch_at_start(s0, "¤(ho)"@, "Hand Only"@, 2);
    crate::text::lemma_replace_mismatch_at_start(s0, "¤(co)"@, "Combat Only"@, 2);
    crate::text::lemma_replace_mismatch_at_start(s0, "¤(any_phase)"@, "Any Phase"@, 2);
    assert(s0.subrange(0, "¤(flip)"@.len() as int) =~= "¤(flip)"@);
    crate::text::lemma_replace_at_start(s0, "¤(flip)"@, "Flip"@);
    let s1 = "Flip"@ + seq![' '] + t;
    assert(s0.subrange("¤(flip)"@.len() as int, s0.len() as int) =~= seq![' '] + t);
    assert("Flip"@ + (seq![' '] + t) =~= s1);
    crate::text::lemma_no_mark_joined("Flip"@, t);
    crate::text::lemma_replace_absent(s1, "¤(quick)"@, "Quick"@);
    crate::text::lemma_replace_absent(s1, "¤(instant)"@, "Instant"@);
    crate::text::lemma_replace_absent(s1, "¤(passing)"@, "Passing"@);
    crate::text::lemma_replace_absent(s1, "¤(Choose_your_c)"@, "Choose a card you control"@);
    crate::text::lemma_replace_absent(s1, "¤(choose_your_c)"@, "choose a card you control"@);
    crate::text::lemma_replace_absent(s1, "¤(Boost)"@, "Boost"@);
    crate::text::lemma_replace_absent(s1, "¤(Boost)"@, "boost"@);
    crate::text::lemma_replace_absent(s1, "¤(I have)"@, "This card has"@);
    crate::text::lemma_replace_absent(s1, "¤(i have)"@, "this card has"@);
    crate::text::lemma_replace_absent(s1, "¤(C_to_lane)"@, "Card's lane"@);
    crate::text::lemma_replace_absent(s1, "¤(c_to_lane)"@, "card's lane"@);
    crate::text::lemma_replace_absent(s1, "¤(Choose_your_pos)"@, "Choose a position on your board"@);
    crate::text::lemma_replace_absent(s1, "¤(choose_your_pos)"@, "choose a position on your board"@);
    crate::text::lemma_replace_absent(s1, "¤(Choose_your_r)"@, "Choose one of your reserves"@);
    crate::text::lemma_replace_absent(s1, "¤(choose_your_r)"@, "choose one of your reserves"@);
    crate::text::lemma_replace_absent(s1, "¤(Choose_your_cpos)"@, "Choose one of your field positions"@);
    crate::text::lemma_replace_absent(s1, "¤(choose_your_cpos)"@, "choose one of your field positions"@);
    crate::text::lemma_replace_absent(s1, "¤(Pos_to_lane)"@, "Position's lane"@);
    crate::text::lemma_replace_absent(s1, "¤(pos_to_lane)"@, "position's lane"@);
    crate::text::lemma_replace_absent(s1, "¤(Move_me_to_r)"@, "Move this card to the chosen reserve"@);
    crate::text::lemma_replace_absent(s1, "¤(move_me_to_r)"@, "move this card to the chosen reserve"@);
    crate::text::lemma_replace_absent(s1, "¤(Attach_me_to_chosen)"@, "Attach this card to the chosen card"@);
    crate::text::lemma_replace_absent(s1, "¤(attach_me_to_chosen)"@, "attach this card to the chosen card"@);
    crate::text::lemma_replace_absent(s1, "¤(Xp)"@, "XP"@);
    crate::text::lemma_replace_absent(s1, "¤(xp)"@, "XP"@);
    crate::text::lemma_replace_absent(s1, "¤(Mana)"@, "Mana"@);
    crate::text::lemma_replace_absent(s1, "¤(mana)"@, "mana"@);
    crate::text::lemma_replace_absent(s1, "¤(Me)"@, "This card"@);
    crate::text::lemma_replace_absent(s1, "¤(me)"@, "this card"@);
    crate::text::lemma_replace_absent(s1, "¤(I)"@, "This card"@);
    crate::text::lemma_replace_absent(s1, "¤(I am)"@, "This card is"@);
    crate::text::lemma_replace_absent(s1, "¤(i)"@, "this card"@);
    crate::text::lemma_replace_absent(s1, "¤(i am)"@, "this card is"@);
    crate::text::lemma_replace_absent(s1, "¤(my)"@, "this card's"@);
    crate::text::lemma_replace_absent(s1, "¤(My)"@, "This card's"@);
    crate::text::lemma_replace_absent(s1, "¤(Set_my_pos_to_chosen)"@, "Move this card to the chosen position"@);
    crate::text::lemma_replace_absent(s1, "¤(set_my_pos_to_chosen)"@, "move this card to the chosen position"@);
}

/// `¤(quick)`, then a space and a text without `¤`: the command becomes `Quick`.
proof fn lemma_bracket_command_4(t: Seq<char>)
    requires
        !t.contains('\u{a4}'),
    ensures
        replace_fixed_bracket("¤(quick)"@ + seq![' '] + t) == "Quick"@ + seq![' '] + t,
{
    reveal_strlit("Any Phase");
    reveal_strlit("Attach this card to the chosen card");
    reveal_strlit("Boost");
    reveal_strlit("Card's lane");
    reveal_strlit("Choose a card you control");
    reveal_strlit("Choose a position on your board");
    reveal_strlit("Choose one of your field positions");
    reveal_strlit("Choose one of your reserves");
    reveal_strlit("Combat Only");
    reveal_strlit("Flip");
    reveal_strlit("Hand Only");
    reveal_strlit("Instant");
    reveal_strlit("Mana");
    reveal_strlit("Move this card to the chosen position");
    reveal_strlit("Move this card to the chosen reserve");
    reveal_strlit("Passing");
    reveal_strlit("Position's lane");
    reveal_strlit("Quick");
    reveal_strlit("This card");
    reveal_strlit("This card has");
    reveal_strlit("This card is");
    reveal_strlit("This card's");
    reveal_strlit("XP");
    reveal_strlit("attach this card to the chosen card");
    reveal_strlit("boost");
    reveal_strlit("card's lane");
    reveal_strlit("choose a card you control");
    reveal_strlit("choose a position on your board");
    reveal_strlit("choose one of your field positions");
    reveal_strlit("choose one of your reserves");
    reveal_strlit("mana");
    reveal_strlit("move this card to the chosen position");
    reveal_strlit("move this card to the chosen reserve");
    reveal_strlit("position's lane");
    reveal_strlit("this card");
    reveal_strlit("this card has");
    reveal_strlit("this card is");
    reveal_strlit("this card's");
    reveal_strlit("¤(Attach_me_to_chosen)");
    reveal_strlit("¤(Boost)");
    reveal_strlit("¤(C_to_lane)");
    reveal_strlit("¤(Choose_your_c)");
    reveal_strlit("¤(Choose_your_cpos)");
    reveal_strlit("¤(Choose_your_pos)");
    reveal_strlit("¤(Choose_your_r)");
    reveal_strlit("¤(I am)");
    reveal_strlit("¤(I have)");
    reveal_strlit("¤(I)");
    reveal_strlit("¤(Mana)");
    reveal_strlit("¤(Me)");
    reveal_strlit("¤(Move_me_to_r)");
    reveal_strlit("¤(My)");
    reveal_strlit("¤(Pos_to_lane)");
    reveal_strlit("¤(Set_my_pos_to_chosen)");
    reveal_strlit("¤(Xp)");
    reveal_strlit("¤(any_phase)");
    reveal_strlit("¤(attach_me_to_chosen)");
    reveal_strlit("¤(c_to_lane)");
    reveal_strlit("¤(choose_your_c)");
    reveal_strlit("¤(choose_your_cpos)");
    reveal_strlit("¤(choose_your_pos)");
    reveal_strlit("¤(choose_your_r)");
    reveal_strlit("¤(co)");
    reveal_strlit("¤(flip)");
    reveal_strlit("¤(ho)");
    reveal_strlit("¤(i am)");
    reveal_strlit("¤(i have)");
    reveal_strlit("¤(i)");
    reveal_strlit("¤(instant)");
    reveal_strlit("¤(mana)");
    reveal_strlit("¤(me)");
    reveal_strlit("¤(move_me_to_r)");
    reveal_strlit("¤(my)");
    reveal_strlit("¤(passing)");
    reveal_strlit("¤(pos_to_lane)");
    reveal_strlit("¤(quick)");
    reveal_strlit("¤(set_my_pos_to_chosen)");
    reveal_strlit("¤(xp)");
    let s0 = "¤(quick)"@ + seq![' '] + t;
    crate::text::lemma_mark_only_at_start("¤(quick)"@, t);
    crate::text::lemma_replace_mismatch_at_start(s0, "¤(ho)"@, "Hand Only"@, 2);
    crate::text::lemma_replace_mismatch_at_start(s0, "¤(co)"@, "Combat Only"@, 2);
    crate::text::lemma_replace_mismatch_at_start(s0, "¤(any_phase)"@, "Any Phase"@, 2);
    crate::text::lemma_replace_mismatch_at_start(s0, "¤(flip)"@, "Flip"@, 2);
    assert(s0.subrange(0, "¤(quick)"@.len() as int) =~= "¤(quick)"@);
    crate::text::lemma_replace_at_start(s0, "¤(quick)"@, "Quick"@);
    let s1 = "Quick"@ + seq![' '] + t;
    assert(s0.subrange("¤(quick)"@.len() as int, s0.len() as int) =~= seq![' '] + t);
    assert("Quick"@ + (seq![' '] + t) =~= s1);
    crate::text::lemma_no_mark_joined("Quick"@, t);
    crate::text::lemma_replace_absent(s1, "¤(instant)"@, "Instant"@);
    crate::text::lemma_replace_absent(s1, "¤(passing)"@, "Passing"@);
    crate::text::lemma_replace_absent(s1, "¤(Choose_your_c)"@, "Choose a card you control"@);
    crate::text::lemma_replace_absent(s1, "¤(choose_your_c)"@, "choose a card you control"@);
    crate::text::lemma_replace_absent(s1, "¤(Boost)"@, "Boost"@);
    crate::text::lemma_replace_absent(s1, "¤(Boost)"@, "boost"@);
    crate::text::lemma_replace_absent(s1, "¤(I have)"@, "This card has"@);
    crate::text::lemma_replace_absent(s1, "¤(i have)"@, "this card has"@);
    crate::text::lemma_replace_absent(s1, "¤(C_to_lane)"@, "Card's lane"@);
    crate::text::lemma_replace_absent(s1, "¤(c_to_lane)"@, "card's lane"@);
    crate::text::lemma_replace_absent(s1, "¤(Choose_your_pos)"@, "Choose a position on your board"@);
    crate::text::lemma_replace_absent(s1, "¤(choose_your_pos)"@, "choose a position on your board"@);
    crate::text::lemma_replace_absent(s1, "¤(Choose_your_r)"@, "Choose one of your reserves"@);
    crate::text::lemma_replace_absent(s1, "¤(choose_your_r)"@, "choose one of your reserves"@);
    crate::text::lemma_replace_absent(s1, "¤(Choose_your_cpos)"@, "Choose one of your field positions"@);
    crate::text::lemma_replace_absent(s1, "¤(choose_your_cpos)"@, "choose one of your field positions"@);
    crate::text::lemma_replace_absent(s1, "¤(Pos_to_lane)"@, "Position's lane"@);
    crate::text::lemma_replace_absent(s1, "¤(pos_to_lane)"@, "position's lane"@);
    crate::text::lemma_replace_absent(s1, "¤(Move_me_to_r)"@, "Move this card to the chosen reserve"@);
    crate::text::lemma_replace_absent(s1, "¤(move_me_to_r)"@, "move this card to the chosen reserve"@);
    crate::text::lemma_replace_absent(s1, "¤(Attach_me_to_chosen)"@, "Attach this card to the chosen card"@);
    crate::text::lemma_replace_absent(s1, "¤(attach_me_to_chosen)"@, "attach this card to the chosen card"@);
    crate::text::lemma_replace_absent(s1, "¤(Xp)"@, "XP"@);
    crate::text::lemma_replace_absent(s1, "¤(xp)"@, "XP"@);
    crate::text::lemma_replace_absent(s1, "¤(Mana)"@, "Mana"@);
    crate::text::lemma_replace_absent(s1, "¤(mana)"@, "mana"@);
    crate::text::lemma_replace_absent(s1, "¤(Me)"@, "This card"@);
    crate::text::lemma_replace_absent(s1, "¤(me)"@, "this card"@);
    crate::text::lemma_replace_absent(s1, "¤(I)"@, "This card"@);
    crate::text::lemma_replace_absent(s1, "¤(I am)"@, "This card is"@);
    crate::text::lemma_replace_absent(s1, "¤(i)"@, "this card"@);
    crate::text::lemma_replace_absent(s1, "¤(i am)"@, "this card is"@);
    crate::text::lemma_replace_absent(s1, "¤(my)"@, "this card's"@);
    crate::text::lemma_replace_absent(s1, "¤(My)"@, "This card's"@);
    crate::text::lemma_replace_absent(s1, "¤(Set_my_pos_to_chosen)"@, "Move this card to the chosen position"@);
    crate::text::lemma_replace_absent(s1, "¤(set_my_pos_to_chosen)"@, "move this card to the chosen position"@);
}

/// `¤(instant)`, then a space and a text without `¤`: the command becomes `Instant`.
proof fn lemma_bracket_command_5(t: Seq<char>)
    requires
        !t.contains('\u{a4}'),
    ensures
        replace_fixed_bracket("¤(instant)"@ + seq![' '] + t) == "Instant"@ + seq![' '] + t,
{
    reveal_strlit("Any Phase");
    reveal_strlit("Attach this card to the chosen card");
    reveal_strlit("Boost");
    reveal_strlit("Card's lane");
    reveal_strlit("Choose a card you control");
    reveal_strlit("Choose a position on your board");
    reveal_strlit("Choose one of your field positions");
    reveal_strlit("Choose one of your reserves");
    reveal_strlit("Combat Only");
    reveal_strlit("Flip");
    reveal_strlit("Hand Only");
    reveal_strlit("Instant");
    reveal_strlit("Mana");
    reveal_strlit("Move this card to the chosen position");
    reveal_strlit("Move this card to the chosen reserve");
    reveal_strlit("Passing");
    reveal_strlit("Position's lane");
    reveal_strlit("Quick");
    reveal_strlit("This card");
    reveal_strlit("This card has");
    reveal_strlit("This card is");
    reveal_strlit("This card's");
    reveal_strlit("XP");
    reveal_strlit("attach this card to the chosen card");
    reveal_strlit("boost");
    reveal_strlit("card's lane");
    reveal_strlit("choose a card you control");
    reveal_strlit("choose a position on your board");
    reveal_strlit("choose one of your field positions");
    reveal_strlit("choose one of your reserves");
    reveal_strlit("mana");
    reveal_strlit("move this card to the chosen position");
    reveal_strlit("move this card to the chosen reserve");
    reveal_strlit("position's lane");
    reveal_strlit("this card");
    reveal_strlit("this card has");
    reveal_strlit("this card is");
    reveal_strlit("this card's");
    reveal_strlit("¤(Attach_me_to_chosen)");
    reveal_strlit("¤(Boost)");
    reveal_strlit("¤(C_to_lane)");
    reveal_strlit("¤(Choose_your_c)");
    reveal_strlit("¤(Choose_your_cpos)");
    reveal_strlit("¤(Choose_your_pos)");
    reveal_strlit("¤(Choose_your_r)");
    reveal_strlit("¤(I am)");
    reveal_strlit("¤(I have)");
    reveal_strlit("¤(I)");
    reveal_strlit("¤(Mana)");
    reveal_strlit("¤(Me)");
    reveal_strlit("¤(Move_me_to_r)");
    reveal_strlit("¤(My)");
    reveal_strlit("¤(Pos_to_lane)");
    reveal_strlit("¤(Set_my_pos_to_chosen)");
    reveal_strlit("¤(Xp)");
    reveal_strlit("¤(any_phase)");
    reveal_strlit("¤(attach_me_to_chosen)");
    reveal_strlit("¤(c_to_lane)");
    reveal_strlit("¤(choose_your_c)");
    reveal_strlit("¤(choose_your_cpos)");
    reveal_strlit("¤(choose_your_pos)");
    reveal_strlit("¤(choose_your_r)");
    reveal_strlit("¤(co)");
    reveal_strlit("¤(flip)");
    reveal_strlit("¤(ho)");
    reveal_strlit("¤(i am)");
    reveal_strlit("¤(i have)");
    reveal_strlit("¤(i)");
    reveal_strlit("¤(instant)");
    reveal_strlit("¤(mana)");
    reveal_strlit("¤(me)");
    reveal_strlit("¤(move_me_to_r)");
    reveal_strlit("¤(my)");
    reveal_strlit("¤(passing)");
    reveal_strlit("¤(pos_to_lane)");
    reveal_strlit("¤(quick)");
    reveal_strlit("¤(set_my_pos_to_chosen)");
    reveal_strlit("¤(xp)");
    let s0 = "¤(instant)"@ + seq![' '] + t;
    crate::text::lemma_mark_only_at_start("¤(instant)"@, t);
    crate::text::lemma_replace_mismatch_at_start(s0, "¤(ho)"@, "Hand Only"@, 2);
    crate::text::lemma_replace_mismatch_at_start(s0, "¤(co)"@, "Combat Only"@, 2);
    crate::text::lemma_replace_mismatch_at_start(s0, "¤(any_phase)"@, "Any Phase"@, 2);
    crate::text::lemma_replace_mismatch_at_start(s0, "¤(flip)"@, "Flip"@, 2);
    crate::text::lemma_replace_mismatch_at_start(s0, "¤(quick)"@, "Quick"@, 2);
    assert(s0.subrange(0, "¤(instant)"@.len() as int) =~= "¤(instant)"@);
    crate::text::lemma_replace_at_start(s0, "¤(instant)"@, "Instant"@);
    let s1 = "Instant"@ + seq![' '] + t;
    assert(s0.subrange("¤(instant)"@.len() as int, s0.len() as int) =~= seq![' '] + t);
    assert("Instant"@ + (seq![' '] + t) =~= s1);
    crate::text::lemma_no_mark_joined("Instant"@, t);
    crate::text::lemma_replace_absent(s1, "¤(passing)"@, "Passing"@);
    crate::text::lemma_replace_absent(s1, "¤(Choose_your_c)"@, "Choose a card you control"@);
    crate::text::lemma_replace_absent(s1, "¤(choose_your_c)"@, "choose a card you control"@);
    crate::text::lemma_replace_absent(s1, "¤(Boost)"@, "Boost"@);
    crate::text::lemma_replace_absent(s1, "¤(Boost)"@, "boost"@);
    crate::text::lemma_replace_absent(s1, "¤(I have)"@, "This card has"@);
    crate::text::lemma_replace_absent(s1, "¤(i have)"@, "this card has"@);
    crate::text::lemma_replace_absent(s1, "¤(C_to_lane)"@, "Card's lane"@);
    crate::text::lemma_replace_absent(s1, "¤(c_to_lane)"@, "card's lane"@);
    crate::text::lemma_replace_absent(s1, "¤(Choose_your_pos)"@, "Choose a position on your board"@);
    crate::text::lemma_replace_absent(s1, "¤(choose_your_pos)"@, "choose a position on your board"@);
    crate::text::lemma_replace_absent(s1, "¤(Choose_your_r)"@, "Choose one of your reserves"@);
    crate::text::lemma_replace_absent(s1, "¤(choose_your_r)"@, "choose one of your reserves"@);
    crate::text::lemma_replace_absent(s1, "¤(Choose_your_cpos)"@, "Choose one of your field positions"@);
    crate::text::lemma_replace_absent(s1, "¤(choose_your_cpos)"@, "choose one of your field positions"@);
    crate::text::lemma_replace_absent(s1, "¤(Pos_to_lane)"@, "Position's lane"@);
    crate::text::lemma_replace_absent(s1, "¤(pos_to_lane)"@, "position's lane"@);
    crate::text::lemma_replace_absent(s1, "¤(Move_me_to_r)"@, "Move this card to the chosen reserve"@);
    crate::text::lemma_replace_absent(s1, "¤(move_me_to_r)"@, "move this card to the chosen reserve"@);
    crate::text::lemma_replace_absent(s1, "¤(Attach_me_to_chosen)"@, "Attach this card to the chosen card"@);
    crate::text::lemma_replace_absent(s1, "¤(attach_me_to_chosen)"@, "attach this card to the chosen card"@);
    crate::text::lemma_replace_absent(s1, "¤(Xp)"@, "XP"@);
    crate::text::lemma_replace_absent(s1, "¤(xp)"@, "XP"@);
    crate::text::lemma_replace_absent(s1, "¤(Mana)"@, "Mana"@);
    crate::text::lemma_replace_absent(s1, "¤(mana)"@, "mana"@);
    crate::text::lemma_replace_absent(s1, "¤(Me)"@, "This card"@);
    crate::text::lemma_replace_absent(s1, "¤(me)"@, "this card"@);
    crate::text::lemma_replace_absent(s1, "¤(I)"@, "This card"@);
    crate::text::lemma_replace_absent(s1, "¤(I am)"@, "This card is"@);
    crate::text::lemma_replace_absent(s1, "¤(i)"@, "this card"@);
    crate::text::lemma_replace_absent(s1, "¤(i am)"@, "this card is"@);
    crate::text::lemma_replace_absent(s1, "¤(my)"@, "this card's"@);
    crate::text::lemma_replace_absent(s1, "¤(My)"@, "This card's"@);
    crate::text::lemma_replace_absent(s1, "¤(Set_my_pos_to_chosen)"@, "Move this card to the chosen position"@);
    crate::text::lemma_replace_absent(s1, "¤(set_my_pos_to_chosen)"@, "move this card to the chosen position"@);
}

/// `¤(passing)`, then a space and a text without `¤`: the command becomes `Passing`.
proof fn lemma_bracket_command_6(t: Seq<char>)
    requires
        !t.contains('\u{a4}'),
    ensures
        replace_fixed_bracket("¤(passing)"@ + seq![' '] + t) == "Passing"@ + seq![' '] + t,
{
    reveal_strlit("Any Phase");
    reveal_strlit("Attach this card to the chosen card");
    reveal_strlit("Boost");
    reveal_strlit("Card's lane");
    reveal_strlit("Choose a card you control");
    reveal_strlit("Choose a position on your board");
    reveal_strlit("Choose one of your field positions");
    reveal_strlit("Choose one of your reserves");
    reveal_strlit("Combat Only");
    reveal_strlit("Flip");
    reveal_strlit("Hand Only");
    reveal_strlit("Instant");
    reveal_strlit("Mana");
    reveal_strlit("Move this card to the chosen position");
    reveal_strlit("Move this card to the chosen reserve");
    reveal_strlit("Passing");
    reveal_strlit("Position's lane");
    reveal_strlit("Quick");
    reveal_strlit("This card");
    reveal_strlit("This card has");
    reveal_strlit("This card is");
    reveal_strlit("This card's");
    reveal_strlit("XP");
    reveal_strlit("attach this card to the chosen card");
    reveal_strlit("boost");
    reveal_strlit("card's lane");
    reveal_strlit("choose a card you control");
    reveal_strlit("choose a position on your board");
    reveal_strlit("choose one of your field positions");
    reveal_strlit("choose one of your reserves");
    reveal_strlit("mana");
    reveal_strlit("move this card to the chosen position");
    reveal_strlit("move this card to the chosen reserve");
    reveal_strlit("position's lane");
    reveal_strlit("this card");
    reveal_strlit("this card has");
    reveal_strlit("this card is");
    reveal_strlit("this card's");
    reveal_strlit("¤(Attach_me_to_chosen)");
    reveal_strlit("¤(Boost)");
    reveal_strlit("¤(C_to_lane)");
    reveal_strlit("¤(Choose_your_c)");
    reveal_strlit("¤(Choose_your_cpos)");
    reveal_strlit("¤(Choose_your_pos)");
    reveal_strlit("¤(Choose_your_r)");
    reveal_strlit("¤(I am)");
    reveal_strlit("¤(I have)");
    reveal_strlit("¤(I)");
    reveal_strlit("¤(Mana)");
    reveal_strlit("¤(Me)");
    reveal_strlit("¤(Move_me_to_r)");
    reveal_strlit("¤(My)");
    reveal_strlit("¤(Pos_to_lane)");
    reveal_strlit("¤(Set_my_pos_to_chosen)");
    reveal_strlit("¤(Xp)");
    reveal_strlit("¤(any_phase)");
    reveal_strlit("¤(attach_me_to_chosen)");
    reveal_strlit("¤(c_to_lane)");
    reveal_strlit("¤(choose_your_c)");
    reveal_strlit("¤(choose_your_cpos)");
    reveal_strlit("¤(choose_your_pos)");
    reveal_strlit("¤(choose_your_r)");
    reveal_strlit("¤(co)");
    reveal_strlit("¤(flip)");
    reveal_strlit("¤(ho)");
    reveal_strlit("¤(i am)");
    reveal_strlit("¤(i have)");
    reveal_strlit("¤(i)");
    reveal_strlit("¤(instant)");
    reveal_strlit("¤(mana)");
    reveal_strlit("¤(me)");
    reveal_strlit("¤(move_me_to_r)");
    reveal_strlit("¤(my)");
    reveal_strlit("¤(passing)");
    reveal_strlit("¤(pos_to_lane)");
    reveal_strlit("¤(quick)");
    reveal_strlit("¤(set_my_pos_to_chosen)");
    reveal_strlit("¤(xp)");
    let s0 = "¤(passing)"@ + seq![' '] + t;
    crate::text::lemma_mark_only_at_start("¤(passing)"@, t);
    crate::text::lemma_replace_mismatch_at_start(s0, "¤(ho)"@, "Hand Only"@, 2);
    crate::text::lemma_replace_mismatch_at_start(s0, "¤(co)"@, "Combat Only"@, 2);
    crate::text::lemma_replace_mismatch_at_start(s0, "¤(any_phase)"@, "Any Phase"@, 2);
    crate::text::lemma_replace_mismatch_at_start(s0, "¤(flip)"@, "Flip"@, 2);
    crate::text::lemma_replace_mismatch_at_start(s0, "¤(quick)"@, "Quick"@, 2);
    crate::text::lemma_replace_mismatch_at_start(s0, "¤(instant)"@, "Instant"@, 2);
    assert(s0.subrange(0, "¤(passing)"@.len() as int) =~= "¤(passing)"@);
    crate::text::lemma_replace_at_start(s0, "¤(passing)"@, "Passing"@);
    let s1 = "Passing"@ + seq![' '] + t;
    assert(s0.subrange("¤(passing)"@.len() as int, s0.len() as int) =~= seq![' '] + t);
    assert("Passing"@ + (seq![' '] + t) =~= s1);
    crate::text::lemma_no_mark_joined("Passing"@, t);
    crate::text::lemma_replace_absent(s1, "¤(Choose_your_c)"@, "Choose a card you control"@);
    crate::text::lemma_replace_absent(s1, "¤(choose_your_c)"@, "choose a card you control"@);
    crate::text::lemma_replace_absent(s1, "¤(Boost)"@, "Boost"@);
    crate::text::lemma_replace_absent(s1, "¤(Boost)"@, "boost"@);
    crate::text::lemma_replace_absent(s1, "¤(I have)"@, "This card has"@);
    crate::text::lemma_replace_absent(s1, "¤(i have)"@, "this card has"@);
    crate::text::lemma_replace_absent(s1, "¤(C_to_lane)"@, "Card's lane"@);
    crate::text::lemma_replace_absent(s1, "¤(c_to_lane)"@, "card's lane"@);
    crate::text::lemma_replace_absent(s1, "¤(Choose_your_pos)"@, "Choose a position on your board"@);
    crate::text::lemma_replace_absent(s1, "¤(choose_your_pos)"@, "choose a position on your board"@);
    crate::text::lemma_replace_absent(s1, "¤(Choose_your_r)"@, "Choose one of your reserves"@);
    crate::text::lemma_replace_absent(s1, "¤(choose_your_r)"@, "choose one of your reserves"@);
    crate::text::lemma_replace_absent(s1, "¤(Choose_your_cpos)"@, "Choose one of your field positions"@);
    crate::text::lemma_replace_absent(s1, "¤(choose_your_cpos)"@, "choose one of your field positions"@);
    crate::text::lemma_replace_absent(s1, "¤(Pos_to_lane)"@, "Position's lane"@);
    crate::text::lemma_replace_absent(s1, "¤(pos_to_lane)"@, "position's lane"@);
    crate::text::lemma_replace_absent(s1, "¤(Move_me_to_r)"@, "Move this card to the chosen reserve"@);
    crate::text::lemma_replace_absent(s1, "¤(move_me_to_r)"@, "move this card to the chosen reserve"@);
    crate::text::lemma_replace_absent(s1, "¤(Attach_me_to_chosen)"@, "Attach this card to the chosen card"@);
    crate::text::lemma_replace_absent(s1, "¤(attach_me_to_chosen)"@, "attach this card to the chosen card"@);
    crate::text::lemma_replace_absent(s1, "¤(Xp)"@, "XP"@);
    crate::text::lemma_replace_absent(s1, "¤(xp)"@, "XP"@);
    crate::text::lemma_replace_absent(s1, "¤(Mana)"@, "Mana"@);
    crate::text::lemma_replace_absent(s1, "¤(mana)"@, "mana"@);
    crate::text::lemma_replace_absent(s1, "¤(Me)"@, "This card"@);
    crate::text::lemma_replace_absent(s1, "¤(me)"@, "this card"@);
    crate::text::lemma_replace_absent(s1, "¤(I)"@, "This card"@);
    crate::text::lemma_replace_absent(s1, "¤(I am)"@, "This card is"@);
    crate::text::lemma_replace_absent(s1, "¤(i)"@, "this card"@);
    crate::text::lemma_replace_absent(s1, "¤(i am)"@, "this card is"@);
    crate::text::lemma_replace_absent(s1, "¤(my)"@, "this card's"@);
    crate::text::lemma_replace_absent(s1, "¤(My)"@, "This card's"@);
    crate::text::lemma_replace_absent(s1, "¤(Set_my_pos_to_chosen)"@, "Move this card to the chosen position"@);
    crate::text::lemma_replace_absent(s1, "¤(set_my_pos_to_chosen)"@, "move this card to the chosen position"@);
}

/// `¤(Choose_your_c)`, then a space and a text without `¤`: the command becomes `Choose a card you control`.
proof fn lemma_bracket_command_7(t: Seq<char>)
    requires
        !t.contains('\u{a4}'),
    ensures
        replace_fixed_bracket("¤(Choose_your_c)"@ + seq![' '] + t) == "Choose a card you control"@ + seq![' '] + t,
{
    reveal_strlit("Any Phase");
    reveal_strlit("Attach this card to the chosen card");
    reveal_strlit("Boost");
    reveal_strlit("Card's lane");
    reveal_strlit("Choose a card you control");
    reveal_strlit("Choose a position on your board");
    reveal_strlit("Choose one of your field positions");
    reveal_strlit("Choose one of your reserves");
    reveal_strlit("Combat Only");
    reveal_strlit("Flip");
    reveal_strlit("Hand Only");
    reveal_strlit("Instant");
    reveal_strlit("Mana");
    reveal_strlit("Move this card to the chosen position");
    reveal_strlit("Move this card to the chosen reserve");
    reveal_strlit("Passing");
    reveal_strlit("Position's lane");
    reveal_strlit("Quick");
    reveal_strlit("This card");
    reveal_strlit("This card has");
    reveal_strlit("This card is");
    reveal_strlit("This card's");
    reveal_strlit("XP");
    reveal_strlit("attach this card to the chosen card");
    reveal_strlit("boost");
    reveal_strlit("card's lane");
    reveal_strlit("choose a card you control");
    reveal_strlit("choose a position on your board");
    reveal_strlit("choose one of your field positions");
    reveal_strlit("choose one of your reserves");
    reveal_strlit("mana");
    reveal_strlit("move this card to the chosen position");
    reveal_strlit("move this card to the chosen reserve");
    reveal_strlit("position's lane");
    reveal_strlit("this card");
    reveal_strlit("this card has");
    reveal_strlit("this card is");
    reveal_strlit("this card's");
    reveal_strlit("¤(Attach_me_to_chosen)");
    reveal_strlit("¤(Boost)");
    reveal_strlit("¤(C_to_lane)");
    reveal_strlit("¤(Choose_your_c)");
    reveal_strlit("¤(Choose_your_cpos)");
    reveal_strlit("¤(Choose_your_pos)");
    reveal_strlit("¤(Choose_your_r)");
    reveal_strlit("¤(I am)");
    reveal_strlit("¤(I have)");
    reveal_strlit("¤(I)");
    reveal_strlit("¤(Mana)");
    reveal_strlit("¤(Me)");
    reveal_strlit("¤(Move_me_to_r)");
    reveal_strlit("¤(My)");
    reveal_strlit("¤(Pos_to_lane)");
    reveal_strlit("¤(Set_my_pos_to_chosen)");
    reveal_strlit("¤(Xp)");
    reveal_strlit("¤(any_phase)");
    reveal_strlit("¤(attach_me_to_chosen)");
    reveal_strlit("¤(c_to_lane)");
    reveal_strlit("¤(choose_your_c)");
    reveal_strlit("¤(choose_your_cpos)");
    reveal_strlit("¤(choose_your_pos)");
    reveal_strlit("¤(choose_your_r)");
    reveal_strlit("¤(co)");
    reveal_strlit("¤(flip)");
    reveal_strlit("¤(ho)");
    reveal_strlit("¤(i am)");
    reveal_strlit("¤(i have)");
    reveal_strlit("¤(i)");
    reveal_strlit("¤(instant)");
    reveal_strlit("¤(mana)");
    reveal_strlit("¤(me)");
    reveal_strlit("¤(move_me_to_r)");
    reveal_strlit("¤(my)");
    reveal_strlit("¤(passing)");
    reveal_strlit("¤(pos_to_lane)");
    reveal_strlit("¤(quick)");
    reveal_strlit("¤(set_my_pos_to_chosen)");
    reveal_strlit("¤(xp)");
    let s0 = "¤(Choose_your_c)"@ + seq![' '] + t;
    crate::text::lemma_mark_only_at_start("¤(Choose_your_c)"@, t);
    crate::text::lemma_replace_mismatch_at_start(s0, "¤(ho)"@, "Hand Only"@, 2);
    crate::text::lemma_replace_mismatch_at_start(s0, "¤(co)"@, "Combat Only"@, 2);
    crate::text::lemma_replace_mismatch_at_start(s0, "¤(any_phase)"@, "Any Phase"@, 2);
    crate::text::lemma_replace_mismatch_at_start(s0, "¤(flip)"@, "Flip"@, 2);
    crate::text::lemma_replace_mismatch_at_start(s0, "¤(quick)"@, "Quick"@, 2);
    crate::text::lemma_replace_mismatch_at_start(s0, "¤(instant)"@, "Instant"@, 2);
    crate::text::lemma_replace_mismatch_at_start(s0, "¤(passing)"@, "Passing"@, 2);
    assert(s0.subrange(0, "¤(Choose_your_c)"@.len() as int) =~= "¤(Choose_your_c)"@);
    crate::text::lemma_replace_at_start(s0, "¤(Choose_your_c)"@, "Choose a card you control"@);
    let s1 = "Choose a card you control"@ + seq![' '] + t;
    assert(s0.subrange("¤(Choose_your_c)"@.len() as int, s0.len() as int) =~= seq![' '] + t);
    assert("Choose a card you control"@ + (seq![' '] + t) =~= s1);
    crate::text::lemma_no_mark_joined("Choose a card you control"@, t);
    crate::text::lemma_replace_absent(s1, "¤(choose_your_c)"@, "choose a card you control"@);
    crate::text::lemma_replace_absent(s1, "¤(Boost)"@, "Boost"@);
    crate::text::lemma_replace_absent(s1, "¤(Boost)"@, "boost"@);
    crate::text::lemma_replace_absent(s1, "¤(I have)"@, "This card has"@);
    crate::text::lemma_replace_absent(s1, "¤(i have)"@, "this card has"@);
    crate::text::lemma_replace_absent(s1, "¤(C_to_lane)"@, "Card's lane"@);
    crate::text::lemma_replace_absent(s1, "¤(c_to_lane)"@, "card's lane"@);
    crate::text::lemma_replace_absent(s1, "¤(Choose_your_pos)"@, "Choose a position on your board"@);
    crate::text::lemma_replace_absent(s1, "¤(choose_your_pos)"@, "choose a position on your board"@);
    crate::text::lemma_replace_absent(s1, "¤(Choose_your_r)"@, "Choose one of your reserves"@);
    crate::text::lemma_replace_absent(s1, "¤(choose_your_r)"@, "choose one of your reserves"@);
    crate::text::lemma_replace_absent(s1, "¤(Choose_your_cpos)"@, "Choose one of your field positions"@);
    crate::text::lemma_replace_absent(s1, "¤(choose_your_cpos)"@, "choose one of your field positions"@);
    crate::text::lemma_replace_absent(s1, "¤(Pos_to_lane)"@, "Position's lane"@);
    crate::text::lemma_replace_absent(s1, "¤(pos_to_lane)"@, "position's lane"@);
    crate::text::lemma_replace_absent(s1, "¤(Move_me_to_r)"@, "Move this card to the chosen reserve"@);
    crate::text::lemma_replace_absent(s1, "¤(move_me_to_r)"@, "move this card to the chosen reserve"@);
    crate::text::lemma_replace_absent(s1, "¤(Attach_me_to_chosen)"@, "Attach this card to the chosen card"@);
    crate::text::lemma_replace_absent(s1, "¤(attach_me_to_chosen)"@, "attach this card to the chosen card"@);
    crate::text::lemma_replace_absent(s1, "¤(Xp)"@, "XP"@);
    crate::text::lemma_replace_absent(s1, "¤(xp)"@, "XP"@);
    crate::text::lemma_replace_absent(s1, "¤(Mana)"@, "Mana"@);
    crate::text::lemma_replace_absent(s1, "¤(mana)"@, "mana"@);
    crate::text::lemma_replace_absent(s1, "¤(Me)"@, "This card"@);
    crate::text::lemma_replace_absent(s1, "¤(me)"@, "this card"@);
    crate::text::lemma_replace_absent(s1, "¤(I)"@, "This card"@);
    crate::text::lemma_replace_absent(s1, "¤(I am)"@, "This card is"@);
    crate::text::lemma_replace_absent(s1, "¤(i)"@, "this card"@);
    crate::text::lemma_replace_absent(s1, "¤(i am)"@, "this card is"@);
    crate::text::lemma_replace_absent(s1, "¤(my)"@, "this card's"@);
    crate::text::lemma_replace_absent(s1, "¤(My)"@, "This card's"@);
    crate::text::lemma_replace_absent(s1, "¤(Set_my_pos_to_chosen)"@, "Move this card to the chosen position"@);
    crate::text::lemma_replace_absent(s1, "¤(set_my_pos_to_chosen)"@, "move this card to the chosen position"@);
}

/// `¤(choose_your_c)`, then a space and a text without `¤`: the command becomes `choose a card you control`.
proof fn lemma_bracket_command_8(t: Seq<char>)
    requires
        !t.contains('\u{a4}'),
    ensures
        replace_fixed_bracket("¤(choose_your_c)"@ + seq![' '] + t) == "choose a card you control"@ + seq![' '] + t,
{
    reveal_strlit("Any Phase");
    reveal_strlit("Attach this card to the chosen card");
    reveal_strlit("Boost");
    reveal_strlit("Card's lane");
    reveal_strlit("Choose a card you control");
    reveal_strlit("Choose a position on your board");
    reveal_strlit("Choose one of your field positions");
    reveal_strlit("Choose one of your reserves");
    reveal_strlit("Combat Only");
    reveal_strlit("Flip");
    reveal_strlit("Hand Only");
    reveal_strlit("Instant");
    reveal_strlit("Mana");
    reveal_strlit("Move this card to the chosen position");
    reveal_strlit("Move this card to the chosen reserve");
    reveal_strlit("Passing");
    reveal_strlit("Position's lane");
    reveal_strlit("Quick");
    reveal_strlit("This card");
    reveal_strlit("This card has");
    reveal_strlit("This card is");
    reveal_strlit("This card's");
    reveal_strlit("XP");
    reveal_strlit("attach this card to the chosen card");
    reveal_strlit("boost");
    reveal_strlit("card's lane");
    reveal_strlit("choose a card you control");
    reveal_strlit("choose a position on your board");
    reveal_strlit("choose one of your field positions");
    reveal_strlit("choose one of your reserves");
    reveal_strlit("mana");
    reveal_strlit("move this card to the chosen position");
    reveal_strlit("move this card to the chosen reserve");
    reveal_strlit("position's lane");
    reveal_strlit("this card");
    reveal_strlit("this card has");
    reveal_strlit("this card is");
    reveal_strlit("this card's");
    reveal_strlit("¤(Attach_me_to_chosen)");
    reveal_strlit("¤(Boost)");
    reveal_strlit("¤(C_to_lane)");
    reveal_strlit("¤(Choose_your_c)");
    reveal_strlit("¤(Choose_your_cpos)");
    reveal_strlit("¤(Choose_your_pos)");
    reveal_strlit("¤(Choose_your_r)");
    reveal_strlit("¤(I am)");
    reveal_strlit("¤(I have)");
    reveal_strlit("¤(I)");
    reveal_strlit("¤(Mana)");
    reveal_strlit("¤(Me)");
    reveal_strlit("¤(Move_me_to_r)");
    reveal_strlit("¤(My)");
    reveal_strlit("¤(Pos_to_lane)");
    reveal_strlit("¤(Set_my_pos_to_chosen)");
    reveal_strlit("¤(Xp)");
    reveal_strlit("¤(any_phase)");
    reveal_strlit("¤(attach_me_to_chosen)");
    reveal_strlit("¤(c_to_lane)");
    reveal_strlit("¤(choose_your_c)");
    reveal_strlit("¤(choose_your_cpos)");
    reveal_strlit("¤(choose_your_pos)");
    reveal_strlit("¤(choose_your_r)");
    reveal_strlit("¤(co)");
    reveal_strlit("¤(flip)");
    reveal_strlit("¤(ho)");
    reveal_strlit("¤(i am)");
    reveal_strlit("¤(i have)");
    reveal_strlit("¤(i)");
    reveal_strlit("¤(instant)");
    reveal_strlit("¤(mana)");
    reveal_strlit("¤(me)");
    reveal_strlit("¤(move_me_to_r)");
    reveal_strlit("¤(my)");
    reveal_strlit("¤(passing)");
    reveal_strlit("¤(pos_to_lane)");
    reveal_strlit("¤(quick)");
    reveal_strlit("¤(set_my_pos_to_chosen)");
    reveal_strlit("¤(xp)");
    let s0 = "¤(choose_your_c)"@ + seq![' '] + t;
    crate::text::lemma_mark_only_at_start("¤(choose_your_c)"@, t);
    crate::text::lemma_replace_mismatch_at_start(s0, "¤(ho)"@, "Hand Only"@, 2);
    crate::text::lemma_replace_mismatch_at_start(s0, "¤(co)"@, "Combat Only"@, 3);
    crate::text::lemma_replace_mismatch_at_start(s0, "¤(any_phase)"@, "Any Phase"@, 2);
    crate::text::lemma_replace_mismatch_at_start(s0, "¤(flip)"@, "Flip"@, 2);
    crate::text::lemma_replace_mismatch_at_start(s0, "¤(quick)"@, "Quick"@, 2);
    crate::text::lemma_replace_mismatch_at_start(s0, "¤(instant)"@, "Instant"@, 2);
    crate::text::lemma_replace_mismatch_at_start(s0, "¤(passing)"@, "Passing"@, 2);
    crate::text::lemma_replace_mismatch_at_start(s0, "¤(Choose_your_c)"@, "Choose a card you control"@, 2);
    assert(s0.subrange(0, "¤(choose_your_c)"@.len() as int) =~= "¤(choose_your_c)"@);
    crate::text::lemma_replace_at_start(s0, "¤(choose_your_c)"@, "choose a card you control"@);
    let s1 = "choose a card you control"@ + seq![' '] + t;
    assert(s0.subrange("¤(choose_your_c)"@.len() as int, s0.len() as int) =~= seq![' '] + t);
    assert("choose a card you control"@ + (seq![' '] + t) =~= s1);
    crate::text::lemma_no_mark_joined("choose a card you control"@, t);
    crate::text::lemma_replace_absent(s1, "¤(Boost)"@, "Boost"@);
    crate::text::lemma_replace_absent(s1, "¤(Boost)"@, "boost"@);
    crate::text::lemma_replace_absent(s1, "¤(I have)"@, "This card has"@);
    crate::text::lemma_replace_absent(s1, "¤(i have)"@, "this card has"@);
    crate::text::lemma_replace_absent(s1, "¤(C_to_lane)"@, "Card's lane"@);
    crate::text::lemma_replace_absent(s1, "¤(c_to_lane)"@, "card's lane"@);
    crate::text::lemma_replace_absent(s1, "¤(Choose_your_pos)"@, "Choose a position on your board"@);
    crate::text::lemma_replace_absent(s1, "¤(choose_your_pos)"@, "choose a position on your board"@);
    crate::text::lemma_replace_absent(s1, "¤(Choose_your_r)"@, "Choose one of your reserves"@);
    crate::text::lemma_replace_absent(s1, "¤(choose_your_r)"@, "choose one of your reserves"@);
    crate::text::lemma_replace_absent(s1, "¤(Choose_your_cpos)"@, "Choose one of your field positions"@);
    crate::text::lemma_replace_absent(s1, "¤(choose_your_cpos)"@, "choose one of your field positions"@);
    crate::text::lemma_replace_absent(s1, "¤(Pos_to_lane)"@, "Position's lane"@);
    crate::text::lemma_replace_absent(s1, "¤(pos_to_lane)"@, "position's lane"@);
    crate::text::lemma_replace_absent(s1, "¤(Move_me_to_r)"@, "Move this card to the chosen reserve"@);
    crate::text::lemma_replace_absent(s1, "¤(move_me_to_r)"@, "move this card to the chosen reserve"@);
    crate::text::lemma_replace_absent(s1, "¤(Attach_me_to_chosen)"@, "Attach this card to the chosen card"@);
    crate::text::lemma_replace_absent(s1, "¤(attach_me_to_chosen)"@, "attach this card to the chosen card"@);
    crate::text::lemma_replace_absent(s1, "¤(Xp)"@, "XP"@);
    crate::text::lemma_replace_absent(s1, "¤(xp)"@, "XP"@);
    crate::text::lemma_replace_absent(s1, "¤(Mana)"@, "Mana"@);
    crate::text::lemma_replace_absent(s1, "¤(mana)"@, "mana"@);
    crate::text::lemma_replace_absent(s1, "¤(Me)"@, "This card"@);
    crate::text::lemma_replace_absent(s1, "¤(me)"@, "this card"@);
    crate::text::lemma_replace_absent(s1, "¤(I)"@, "This card"@);
    crate::text::lemma_replace_absent(s1, "¤(I am)"@, "This card is"@);
    crate::text::lemma_replace_absent(s1, "¤(i)"@, "this card"@);
    crate::text::lemma_replace_absent(s1, "¤(i am)"@, "this card is"@);
    crate::text::lemma_replace_absent(s1, "¤(my)"@, "this card's"@);
    crate::text::lemma_replace_absent(s1, "¤(My)"@, "This card's"@);
    crate::text::lemma_replace_absent(s1, "¤(Set_my_pos_to_chosen)"@, "Move this card to the chosen position"@);
    crate::text::lemma_replace_absent(s1, "¤(set_my_pos_to_chosen)"@, "move this card to the chosen position"@);
}

/// `¤(Boost)`, then a space and a text without `¤`: the command becomes `Boost`.
proof fn lemma_bracket_command_9(t: Seq<char>)
    requires
        !t.contains('\u{a4}'),
    ensures
        replace_fixed_bracket("¤(Boost)"@ + seq![' '] + t) == "Boost"@ + seq![' '] + t,
{
    reveal_strlit("Any Phase");
    reveal_strlit("Attach this card to the chosen card");
    reveal_strlit("Boost");
    reveal_strlit("Card's lane");
    reveal_strlit("Choose a card you control");
    reveal_strlit("Choose a position on your board");
    reveal_strlit("Choose one of your field positions");
    reveal_strlit("Choose one of your reserves");
    reveal_strlit("Combat Only");
    reveal_strlit("Flip");
    reveal_strlit("Hand Only");
    reveal_strlit("Instant");
    reveal_strlit("Mana");
    reveal_strlit("Move this card to the chosen position");
    reveal_strlit("Move this card to the chosen reserve");
    reveal_strlit("Passing");
    reveal_strlit("Position's lane");
    reveal_strlit("Quick");
    reveal_strlit("This card");
    reveal_strlit("This card has");
    reveal_strlit("This card is");
    reveal_strlit("This card's");
    reveal_strlit("XP");
    reveal_strlit("attach this card to the chosen card");
    reveal_strlit("boost");
    reveal_strlit("card's lane");
    reveal_strlit("choose a card you control");
    reveal_strlit("choose a position on your board");
    reveal_strlit("choose one of your field positions");
    reveal_strlit("choose one of your reserves");
    reveal_strlit("mana");
    reveal_strlit("move this card to the chosen position");
    reveal_strlit("move this card to the chosen reserve");
    reveal_strlit("position's lane");
    reveal_strlit("this card");
    reveal_strlit("this card has");
    reveal_strlit("this card is");
    reveal_strlit("this card's");
    reveal_strlit("¤(Attach_me_to_chosen)");
    reveal_strlit("¤(Boost)");
    reveal_strlit("¤(C_to_lane)");
    reveal_strlit("¤(Choose_your_c)");
    reveal_strlit("¤(Choose_your_cpos)");
    reveal_strlit("¤(Choose_your_pos)");
    reveal_strlit("¤(Choose_your_r)");
    reveal_strlit("¤(I am)");
    reveal_strlit("¤(I have)");
    reveal_strlit("¤(I)");
    reveal_strlit("¤(Mana)");
    reveal_strlit("¤(Me)");
    reveal_strlit("¤(Move_me_to_r)");
    reveal_strlit("¤(My)");
    reveal_strlit("¤(Pos_to_lane)");
    reveal_strlit("¤(Set_my_pos_to_chosen)");
    reveal_strlit("¤(Xp)");
    reveal_strlit("¤(any_phase)");
    reveal_strlit("¤(attach_me_to_chosen)");
    reveal_strlit("¤(c_to_lane)");
    reveal_strlit("¤(choose_your_c)");
    reveal_strlit("¤(choose_your_cpos)");
    reveal_strlit("¤(choose_your_pos)");
    reveal_strlit("¤(choose_your_r)");
    reveal_strlit("¤(co)");
    reveal_strlit("¤(flip)");
    reveal_strlit("¤(ho)");
    reveal_strlit("¤(i am)");
    reveal_strlit("¤(i have)");
    reveal_strlit("¤(i)");
    reveal_strlit("¤(instant)");
    reveal_strlit("¤(mana)");
    reveal_strlit("¤(me)");
    reveal_strlit("¤(move_me_to_r)");
    reveal_strlit("¤(my)");
    reveal_strlit("¤(passing)");
    reveal_strlit("¤(pos_to_lane)");
    reveal_strlit("¤(quick)");
    reveal_strlit("¤(set_my_pos_to_chosen)");
    reveal_strlit("¤(xp)");
    let s0 = "¤(Boost)"@ + seq![' '] + t;
    crate::text::lemma_mark_only_at_start("¤(Boost)"@, t);
    crate::text::lemma_replace_mismatch_at_start(s0, "¤(ho)"@, "Hand Only"@, 2);
    crate::text::lemma_replace_mismatch_at_start(s0, "¤(co)"@, "Combat Only"@, 2);
    crate::text::lemma_replace_mismatch_at_start(s0, "¤(any_phase)"@, "Any Phase"@, 2);
    crate::text::lemma_replace_mismatch_at_start(s0, "¤(flip)"@, "Flip"@, 2);
    crate::text::lemma_replace_mismatch_at_start(s0, "¤(quick)"@, "Quick"@, 2);
    crate::text::lemma_replace_mismatch_at_start(s0, "¤(instant)"@, "Instant"@, 2);
    crate::text::lemma_replace_mismatch_at_start(s0, "¤(passing)"@, "Passing"@, 2);
    crate::text::lemma_replace_mismatch_at_start(s0, "¤(Choose_your_c)"@, "Choose a card you control"@, 2);
    crate::text::lemma_replace_mismatch_at_start(s0, "¤(choose_your_c)"@, "choose a card you control"@, 2);
    assert(s0.subrange(0, "¤(Boost)"@.len() as int) =~= "¤(Boost)"@);
    crate::text::lemma_replace_at_start(s0, "¤(Boost)"@, "Boost"@);
    let s1 = "Boost"@ + seq![' '] + t;
    assert(s0.subrange("¤(Boost)"@.len() as int, s0.len() as int) =~= seq![' '] + t);
    assert("Boost"@ + (seq![' '] + t) =~= s1);
    crate::text::lemma_no_mark_joined("Boost"@, t);
    crate::text::lemma_replace_absent(s1, "¤(Boost)"@, "boost"@);
    crate::text::lemma_replace_absent(s1, "¤(I have)"@, "This card has"@);
    crate::text::lemma_replace_absent(s1, "¤(i have)"@, "this card has"@);
    crate::text::lemma_replace_absent(s1, "¤(C_to_lane)"@, "Card's lane"@);
    crate::text::lemma_replace_absent(s1, "¤(c_to_lane)"@, "card's lane"@);
    crate::text::lemma_replace_absent(s1, "¤(Choose_your_pos)"@, "Choose a position on your board"@);
    crate::text::lemma_replace_absent(s1, "¤(choose_your_pos)"@, "choose a position on your board"@);
    crate::text::lemma_replace_absent(s1, "¤(Choose_your_r)"@, "Choose one of your reserves"@);
    crate::text::lemma_replace_absent(s1, "¤(choose_your_r)"@, "choose one of your reserves"@);
    crate::text::lemma_replace_absent(s1, "¤(Choose_your_cpos)"@, "Choose one of your field positions"@);
    crate::text::lemma_replace_absent(s1, "¤(choose_your_cpos)"@, "choose one of your field positions"@);
    crate::text::lemma_replace_absent(s1, "¤(Pos_to_lane)"@, "Position's lane"@);
    crate::text::lemma_replace_absent(s1, "¤(pos_to_lane)"@, "position's lane"@);
    crate::text::lemma_replace_absent(s1, "¤(Move_me_to_r)"@, "Move this card to the chosen reserve"@);
    crate::text::lemma_replace_absent(s1, "¤(move_me_to_r)"@, "move this card to the chosen reserve"@);
    crate::text::lemma_replace_absent(s1, "¤(Attach_me_to_chosen)"@, "Attach this card to the chosen card"@);
    crate::text::lemma_replace_absent(s1, "¤(attach_me_to_chosen)"@, "attach this card to the chosen card"@);
    crate::text::lemma_replace_absent(s1, "¤(Xp)"@, "XP"@);
    crate::text::lemma_replace_absent(s1, "¤(xp)"@, "XP"@);
    crate::text::lemma_replace_absent(s1, "¤(Mana)"@, "Mana"@);
    crate::text::lemma_replace_absent(s1, "¤(mana)"@, "mana"@);
    crate::text::lemma_replace_absent(s1, "¤(Me)"@, "This card"@);
    crate::text::lemma_replace_absent(s1, "¤(me)"@, "this card"@);
    crate::text::lemma_replace_absent(s1, "¤(I)"@, "This card"@);
    crate::text::lemma_replace_absent(s1, "¤(I am)"@, "This card is"@);
    crate::text::lemma_replace_absent(s1, "¤(i)"@, "this card"@);
    crate::text::lemma_replace_absent(s1, "¤(i am)"@, "this card is"@);
    crate::text::lemma_replace_absent(s1, "¤(my)"@, "this card's"@);
    crate::text::lemma_replace_absent(s1, "¤(My)"@, "This card's"@);
    crate::text::lemma_replace_absent(s1, "¤(Set_my_pos_to_chosen)"@, "Move this card to the chosen position"@);
    crate::text::lemma_replace_absent(s1, "¤(set_my_pos_to_chosen)"@, "move this card to the chosen position"@);
}

/// `¤(I have)`, then a space and a text without `¤`: the command becomes `This card has`.
proof fn lemma_bracket_command_10(t: Seq<char>)
    requires
        !t.contains('\u{a4}'),
    ensures
        replace_fixed_bracket("¤(I have)"@ + seq![' '] + t) == "This card has"@ + seq![' '] + t,
{
    reveal_strlit("Any Phase");
    reveal_strlit("Attach this card to the chosen card");
    reveal_strlit("Boost");
    reveal_strlit("Card's lane");
    reveal_strlit("Choose a card you control");
    reveal_strlit("Choose a position on your board");
    reveal_strlit("Choose one of your field positions");
    reveal_strlit("Choose one of your reserves");
    reveal_strlit("Combat Only");
    reveal_strlit("Flip");
    reveal_strlit("Hand Only");
    reveal_strlit("Instant");
    reveal_strlit("Mana");
    reveal_strlit("Move this card to the chosen position");
    reveal_strlit("Move this card to the chosen reserve");
    reveal_strlit("Passing");
    reveal_strlit("Position's lane");
    reveal_strlit("Quick");
    reveal_strlit("This card");
    reveal_strlit("This card has");
    reveal_strlit("This card is");
    reveal_strlit("This card's");
    reveal_strlit("XP");
    reveal_strlit("attach this card to the chosen card");
    reveal_strlit("boost");
    reveal_strlit("card's lane");
    reveal_strlit("choose a card you control");
    reveal_strlit("choose a position on your board");
    reveal_strlit("choose one of your field positions");
    reveal_strlit("choose one of your reserves");
    reveal_strlit("mana");
    reveal_strlit("move this card to the chosen position");
    reveal_strlit("move this card to the chosen reserve");
    reveal_strlit("position's lane");
    reveal_strlit("this card");
    reveal_strlit("this card has");
    reveal_strlit("this card is");
    reveal_strlit("this card's");
    reveal_strlit("¤(Attach_me_to_chosen)");
    reveal_strlit("¤(Boost)");
    reveal_strlit("¤(C_to_lane)");
    reveal_strlit("¤(Choose_your_c)");
    reveal_strlit("¤(Choose_your_cpos)");
    reveal_strlit("¤(Choose_your_pos)");
    reveal_strlit("¤(Choose_your_r)");
    reveal_strlit("¤(I am)");
    reveal_strlit("¤(I have)");
    reveal_strlit("¤(I)");
    reveal_strlit("¤(Mana)");
    reveal_strlit("¤(Me)");
    reveal_strlit("¤(Move_me_to_r)");
    reveal_strlit("¤(My)");
    reveal_strlit("¤(Pos_to_lane)");
    reveal_strlit("¤(Set_my_pos_to_chosen)");
    reveal_strlit("¤(Xp)");
    reveal_strlit("¤(any_phase)");
    reveal_strlit("¤(attach_me_to_chosen)");
    reveal_strlit("¤(c_to_lane)");
    reveal_strlit("¤(choose_your_c)");
    reveal_strlit("¤(choose_your_cpos)");
    reveal_strlit("¤(choose_your_pos)");
    reveal_strlit("¤(choose_your_r)");
    reveal_strlit("¤(co)");
    reveal_strlit("¤(flip)");
    reveal_strlit("¤(ho)");
    reveal_strlit("¤(i am)");
    reveal_strlit("¤(i have)");
    reveal_strlit("¤(i)");
    reveal_strlit("¤(instant)");
    reveal_strlit("¤(mana)");
    reveal_strlit("¤(me)");
    reveal_strlit("¤(move_me_to_r)");
    reveal_strlit("¤(my)");
    reveal_strlit("¤(passing)");
    reveal_strlit("¤(pos_to_lane)");
    reveal_strlit("¤(quick)");
    reveal_strlit("¤(set_my_pos_to_chosen)");
    reveal_strlit("¤(xp)");
    let s0 = "¤(I have)"@ + seq![' '] + t;
    crate::text::lemma_mark_only_at_start("¤(I have)"@, t);
    crate::text::lemma_replace_mismatch_at_start(s0, "¤(ho)"@, "Hand Only"@, 2);
    crate::text::lemma_replace_mismatch_at_start(s0, "¤(co)"@, "Combat Only"@, 2);
    crate::text::lemma_replace_mismatch_at_start(s0, "¤(any_phase)"@, "Any Phase"@, 2);
    crate::text::lemma_replace_mismatch_at_start(s0, "¤(flip)"@, "Flip"@, 2);
    crate::text::lemma_replace_mismatch_at_start(s0, "¤(quick)"@, "Quick"@, 2);
    crate::text::lemma_replace_mismatch_at_start(s0, "¤(instant)"@, "Instant"@, 2);
    crate::text::lemma_replace_mismatch_at_start(s0, "¤(passing)"@, "Passing"@, 2);
    crate::text::lemma_replace_mismatch_at_start(s0, "¤(Choose_your_c)"@, "Choose a card you control"@, 2);
    crate::text::lemma_replace_mismatch_at_start(s0, "¤(choose_your_c)"@, "choose a card you control"@, 2);
    crate::text::lemma_replace_mismatch_at_start(s0, "¤(Boost)"@, "Boost"@, 2);
    crate::text::lemma_replace_mismatch_at_start(s0, "¤(Boost)"@, "boost"@, 2);
    assert(s0.subrange(0, "¤(I have)"@.len() as int) =~= "¤(I have)"@);
    crate::text::lemma_replace_at_start(s0, "¤(I have)"@, "This card has"@);
    let s1 = "This card has"@ + seq![' '] + t;
    assert(s0.subrange("¤(I have)"@.len() as int, s0.len() as int) =~= seq![' '] + t);
    assert("This card has"@ + (seq![' '] + t) =~= s1);
    crate::text::lemma_no_mark_joined("This card has"@, t);
    crate::text::lemma_replace_absent(s1, "¤(i have)"@, "this card has"@);
    crate::text::lemma_replace_absent(s1, "¤(C_to_lane)"@, "Card's lane"@);
    crate::text::lemma_replace_absent(s1, "¤(c_to_lane)"@, "card's lane"@);
    crate::text::lemma_replace_absent(s1, "¤(Choose_your_pos)"@, "Choose a position on your board"@);
    crate::text::lemma_replace_absent(s1, "¤(choose_your_pos)"@, "choose a position on your board"@);
    crate::text::lemma_replace_absent(s1, "¤(Choose_your_r)"@, "Choose one of your reserves"@);
    crate::text::lemma_replace_absent(s1, "¤(choose_your_r)"@, "choose one of your reserves"@);
    crate::text::lemma_replace_absent(s1, "¤(Choose_your_cpos)"@, "Choose one of your field positions"@);
    crate::text::lemma_replace_absent(s1, "¤(choose_your_cpos)"@, "choose one of your field positions"@);
    crate::text::lemma_replace_absent(s1, "¤(Pos_to_lane)"@, "Position's lane"@);
    crate::text::lemma_replace_absent(s1, "¤(pos_to_lane)"@, "position's lane"@);
    crate::text::lemma_replace_absent(s1, "¤(Move_me_to_r)"@, "Move this card to the chosen reserve"@);
    crate::text::lemma_replace_absent(s1, "¤(move_me_to_r)"@, "move this card to the chosen reserve"@);
    crate::text::lemma_replace_absent(s1, "¤(Attach_me_to_chosen)"@, "Attach this card to the chosen card"@);
    crate::text::lemma_replace_absent(s1, "¤(attach_me_to_chosen)"@, "attach this card to the chosen card"@);
    crate::text::lemma_replace_absent(s1, "¤(Xp)"@, "XP"@);
    crate::text::lemma_replace_absent(s1, "¤(xp)"@, "XP"@);
    crate::text::lemma_replace_absent(s1, "¤(Mana)"@, "Mana"@);
    crate::text::lemma_replace_absent(s1, "¤(mana)"@, "mana"@);
    crate::text::lemma_replace_absent(s1, "¤(Me)"@, "This card"@);
    crate::text::lemma_replace_absent(s1, "¤(me)"@, "this card"@);
    crate::text::lemma_replace_absent(s1, "¤(I)"@, "This card"@);
    crate::text::lemma_replace_absent(s1, "¤(I am)"@, "This card is"@);
    crate::text::lemma_replace_absent(s1, "¤(i)"@, "this card"@);
    crate::text::lemma_replace_absent(s1, "¤(i am)"@, "this card is"@);
    crate::text::lemma_replace_absent(s1, "¤(my)"@, "this card's"@);
    crate::text::lemma_replace_absent(s1, "¤(My)"@, "This card's"@);
    crate::text::lemma_replace_absent(s1, "¤(Set_my_pos_to_chosen)"@, "Move this card to the chosen position"@);
    crate::text::lemma_replace_absent(s1, "¤(set_my_pos_to_chosen)"@, "move this card to the chosen position"@);
}

/// `¤(i have)`, then a space and a text without `¤`: the command becomes `this card has`.
proof fn lemma_bracket_command_11(t: Seq<char>)
    requires
        !t.contains('\u{a4}'),
    ensures
        replace_fixed_bracket("¤(i have)"@ + seq![' '] + t) == "this card has"@ + seq![' '] + t,
{
    reveal_strlit("Any Phase");
    reveal_strlit("Attach this card to the chosen card");
    reveal_strlit("Boost");
    reveal_strlit("Card's lane");
    reveal_strlit("Choose a card you control");
    reveal_strlit("Choose a position on your board");
    reveal_strlit("Choose one of your field positions");
    reveal_strlit("Choose one of your reserves");
    reveal_strlit("Combat Only");
    reveal_strlit("Flip");
    reveal_strlit("Hand Only");
    reveal_strlit("Instant");
    reveal_strlit("Mana");
    reveal_strlit("Move this card to the chosen position");
    reveal_strlit("Move this card to the chosen reserve");
    reveal_strlit("Passing");
    reveal_strlit("Position's lane");
    reveal_strlit("Quick");
    reveal_strlit("This card");
    reveal_strlit("This card has");
    reveal_strlit("This card is");
    reveal_strlit("This card's");
    reveal_strlit("XP");
    reveal_strlit("attach this card to the chosen card");
    reveal_strlit("boost");
    reveal_strlit("card's lane");
    reveal_strlit("choose a card you control");
    reveal_strlit("choose a position on your board");
    reveal_strlit("choose one of your field positions");
    reveal_strlit("choose one of your reserves");
    reveal_strlit("mana");
    reveal_strlit("move this card to the chosen position");
    reveal_strlit("move this card to the chosen reserve");
    reveal_strlit("position's lane");
    reveal_strlit("this card");
    reveal_strlit("this card has");
    reveal_strlit("this card is");
    reveal_strlit("this card's");
    reveal_strlit("¤(Attach_me_to_chosen)");
    reveal_strlit("¤(Boost)");
    reveal_strlit("¤(C_to_lane)");
    reveal_strlit("¤(Choose_your_c)");
    reveal_strlit("¤(Choose_your_cpos)");
    reveal_strlit("¤(Choose_your_pos)");
    reveal_strlit("¤(Choose_your_r)");
    reveal_strlit("¤(I am)");
    reveal_strlit("¤(I have)");
    reveal_strlit("¤(I)");
    reveal_strlit("¤(Mana)");
    reveal_strlit("¤(Me)");
    reveal_strlit("¤(Move_me_to_r)");
    reveal_strlit("¤(My)");
    reveal_strlit("¤(Pos_to_lane)");
    reveal_strlit("¤(Set_my_pos_to_chosen)");
    reveal_strlit("¤(Xp)");
    reveal_strlit("¤(any_phase)");
    reveal_strlit("¤(attach_me_to_chosen)");
    reveal_strlit("¤(c_to_lane)");
    reveal_strlit("¤(choose_your_c)");
    reveal_strlit("¤(choose_your_cpos)");
    reveal_strlit("¤(choose_your_pos)");
    reveal_strlit("¤(choose_your_r)");
    reveal_strlit("¤(co)");
    reveal_strlit("¤(flip)");
    reveal_strlit("¤(ho)");
    reveal_strlit("¤(i am)");
    reveal_strlit("¤(i have)");
    reveal_strlit("¤(i)");
    reveal_strlit("¤(instant)");
    reveal_strlit("¤(mana)");
    reveal_strlit("¤(me)");
    reveal_strlit("¤(move_me_to_r)");
    reveal_strlit("¤(my)");
    reveal_strlit("¤(passing)");
    reveal_strlit("¤(pos_to_lane)");
    reveal_strlit("¤(quick)");
    reveal_strlit("¤(set_my_pos_to_chosen)");
    reveal_strlit("¤(xp)");
    let s0 = "¤(i have)"@ + seq![' '] + t;
    crate::text::lemma_mark_only_at_start("¤(i have)"@, t);
    crate::text::lemma_replace_mismatch_at_start(s0, "¤(ho)"@, "Hand Only"@, 2);
    crate::text::lemma_replace_mismatch_at_start(s0, "¤(co)"@, "Combat Only"@, 2);
    crate::text::lemma_replace_mismatch_at_start(s0, "¤(any_phase)"@, "Any Phase"@, 2);
    crate::text::lemma_replace_mismatch_at_start(s0, "¤(flip)"@, "Flip"@, 2);
    crate::text::lemma_replace_mismatch_at_start(s0, "¤(quick)"@, "Quick"@, 2);
    crate::text::lemma_replace_mismatch_at_start(s0, "¤(instant)"@, "Instant"@, 3);
    crate::text::lemma_replace_mismatch_at_start(s0, "¤(passing)"@, "Passing"@, 2);
    crate::text::lemma_replace_mismatch_at_start(s0, "¤(Choose_your_c)"@, "Choose a card you control"@, 2);
    crate::text::lemma_replace_mismatch_at_start(s0, "¤(choose_your_c)"@, "choose a card you control"@, 2);
    crate::text::lemma_replace_mismatch_at_start(s0, "¤(Boost)"@, "Boost"@, 2);
    crate::text::lemma_replace_mismatch_at_start(s0, "¤(Boost)"@, "boost"@, 2);
    crate::text::lemma_replace_mismatch_at_start(s0, "¤(I have)"@, "This card has"@, 2);
    assert(s0.subrange(0, "¤(i have)"@.len() as int) =~= "¤(i have)"@);
    crate::text::lemma_replace_at_start(s0, "¤(i have)"@, "this card has"@);
    let s1 = "this card has"@ + seq![' '] + t;
    assert(s0.subrange("¤(i have)"@.len() as int, s0.len() as int) =~= seq![' '] + t);
    assert("this card has"@ + (seq![' '] + t) =~= s1);
    crate::text::lemma_no_mark_joined("this card has"@, t);
    crate::text::lemma_replace_absent(s1, "¤(C_to_lane)"@, "Card's lane"@);
    crate::text::lemma_replace_absent(s1, "¤(c_to_lane)"@, "card's lane"@);
    crate::text::lemma_replace_absent(s1, "¤(Choose_your_pos)"@, "Choose a position on your board"@);
    crate::text::lemma_replace_absent(s1, "¤(choose_your_pos)"@, "choose a position on your board"@);
    crate::text::lemma_replace_absent(s1, "¤(Choose_your_r)"@, "Choose one of your reserves"@);
    crate::text::lemma_replace_absent(s1, "¤(choose_your_r)"@, "choose one of your reserves"@);
    crate::text::lemma_replace_absent(s1, "¤(Choose_your_cpos)"@, "Choose one of your field positions"@);
    crate::text::lemma_replace_absent(s1, "¤(choose_your_cpos)"@, "choose one of your field positions"@);
    crate::text::lemma_replace_absent(s1, "¤(Pos_to_lane)"@, "Position's lane"@);
    crate::text::lemma_replace_absent(s1, "¤(pos_to_lane)"@, "position's lane"@);
    crate::text::lemma_replace_absent(s1, "¤(Move_me_to_r)"@, "Move this card to the chosen reserve"@);
    crate::text::lemma_replace_absent(s1, "¤(move_me_to_r)"@, "move this card to the chosen reserve"@);
    crate::text::lemma_replace_absent(s1, "¤(Attach_me_to_chosen)"@, "Attach this card to the chosen card"@);
    crate::text::lemma_replace_absent(s1, "¤(attach_me_to_chosen)"@, "attach this card to the chosen card"@);
    crate::text::lemma_replace_absent(s1, "¤(Xp)"@, "XP"@);
    crate::text::lemma_replace_absent(s1, "¤(xp)"@, "XP"@);
    crate::text::lemma_replace_absent(s1, "¤(Mana)"@, "Mana"@);
    crate::text::lemma_replace_absent(s1, "¤(mana)"@, "mana"@);
    crate::text::lemma_replace_absent(s1, "¤(Me)"@, "This card"@);
    crate::text::lemma_replace_absent(s1, "¤(me)"@, "this card"@);
    crate::text::lemma_replace_absent(s1, "¤(I)"@, "This card"@);
    crate::text::lemma_replace_absent(s1, "¤(I am)"@, "This card is"@);
    crate::text::lemma_replace_absent(s1, "¤(i)"@, "this card"@);
    crate::text::lemma_replace_absent(s1, "¤(i am)"@, "this card is"@);
    crate::text::lemma_replace_absent(s1, "¤(my)"@, "this card's"@);
    crate::text::lemma_replace_absent(s1, "¤(My)"@, "This card's"@);
    crate::text::lemma_replace_absent(s1, "¤(Set_my_pos_to_chosen)"@, "Move this card to the chosen position"@);
    crate::text::lemma_replace_absent(s1, "¤(set_my_pos_to_chosen)"@, "move this card to the chosen position"@);
}

/// `¤(C_to_lane)`, then a space and a text without `¤`: the command becomes `Card's lane`.
proof fn lemma_bracket_command_12(t: Seq<char>)
    requires
        !t.contains('\u{a4}'),
    ensures
        replace_fixed_bracket("¤(C_to_lane)"@ + seq![' '] + t) == "Card's lane"@ + seq![' '] + t,
{
    reveal_strlit("Any Phase");
    reveal_strlit("Attach this card to the chosen card");
    reveal_strlit("Boost");
    reveal_strlit("Card's lane");
    reveal_strlit("Choose a card you control");
    reveal_strlit("Choose a position on your board");
    reveal_strlit("Choose one of your field positions");
    reveal_strlit("Choose one of your reserves");
    reveal_strlit("Combat Only");
    reveal_strlit("Flip");
    reveal_strlit("Hand Only");
    reveal_strlit("Instant");
    reveal_strlit("Mana");
    reveal_strlit("Move this card to the chosen position");
    reveal_strlit("Move this card to the chosen reserve");
    reveal_strlit("Passing");
    reveal_strlit("Position's lane");
    reveal_strlit("Quick");
    reveal_strlit("This card");
    reveal_strlit("This card has");
    reveal_strlit("This card is");
    reveal_strlit("This card's");
    reveal_strlit("XP");
    reveal_strlit("attach this card to the chosen card");
    reveal_strlit("boost");
    reveal_strlit("card's lane");
    reveal_strlit("choose a card you control");
    reveal_strlit("choose a position on your board");
    reveal_strlit("choose one of your field positions");
    reveal_strlit("choose one of your reserves");
    reveal_strlit("mana");
    reveal_strlit("move this card to the chosen position");
    reveal_strlit("move this card to the chosen reserve");
    reveal_strlit("position's lane");
    reveal_strlit("this card");
    reveal_strlit("this card has");
    reveal_strlit("this card is");
    reveal_strlit("this card's");
    reveal_strlit("¤(Attach_me_to_chosen)");
    reveal_strlit("¤(Boost)");
    reveal_strlit("¤(C_to_lane)");
    reveal_strlit("¤(Choose_your_c)");
    reveal_strlit("¤(Choose_your_cpos)");
    reveal_strlit("¤(Choose_your_pos)");
    reveal_strlit("¤(Choose_your_r)");
    reveal_strlit("¤(I am)");
    reveal_strlit("¤(I have)");
    reveal_strlit("¤(I)");
    reveal_strlit("¤(Mana)");
    reveal_strlit("¤(Me)");
    reveal_strlit("¤(Move_me_to_r)");
    reveal_strlit("¤(My)");
    reveal_strlit("¤(Pos_to_lane)");
    reveal_strlit("¤(Set_my_pos_to_chosen)");
    reveal_strlit("¤(Xp)");
    reveal_strlit("¤(any_phase)");
    reveal_strlit("¤(attach_me_to_chosen)");
    reveal_strlit("¤(c_to_lane)");
    reveal_strlit("¤(choose_your_c)");
    reveal_strlit("¤(choose_your_cpos)");
    reveal_strlit("¤(choose_your_pos)");
    reveal_strlit("¤(choose_your_r)");
    reveal_strlit("¤(co)");
    reveal_strlit("¤(flip)");
    reveal_strlit("¤(ho)");
    reveal_strlit("¤(i am)");
    reveal_strlit("¤(i have)");
    reveal_strlit("¤(i)");
    reveal_strlit("¤(instant)");
    reveal_strlit("¤(mana)");
    reveal_strlit("¤(me)");
    reveal_strlit("¤(move_me_to_r)");
    reveal_strlit("¤(my)");
    reveal_strlit("¤(passing)");
    reveal_strlit("¤(pos_to_lane)");
    reveal_strlit("¤(quick)");
    reveal_strlit("¤(set_my_pos_to_chosen)");
    reveal_strlit("¤(xp)");
    let s0 = "¤(C_to_lane)"@ + seq![' '] + t;
    crate::text::lemma_mark_only_at_start("¤(C_to_lane)"@, t);
    crate::text::lemma_replace_mismatch_at_start(s0, "¤(ho)"@, "Hand Only"@, 2);
    crate::text::lemma_replace_mismatch_at_start(s0, "¤(co)"@, "Combat Only"@, 2);
    crate::text::lemma_replace_mismatch_at_start(s0, "¤(any_phase)"@, "Any Phase"@, 2);
    crate::text::lemma_replace_mismatch_at_start(s0, "¤(flip)"@, "Flip"@, 2);
    crate::text::lemma_replace_mismatch_at_start(s0, "¤(quick)"@, "Quick"@, 2);
    crate::text::lemma_replace_mismatch_at_start(s0, "¤(instant)"@, "Instant"@, 2);
    crate::text::lemma_replace_mismatch_at_start(s0, "¤(passing)"@, "Passing"@, 2);
    crate::text::lemma_replace_mismatch_at_start(s0, "¤(Choose_your_c)"@, "Choose a card you control"@, 3);
    crate::text::lemma_replace_mismatch_at_start(s0, "¤(choose_your_c)"@, "choose a card you control"@, 2);
    crate::text::lemma_replace_mismatch_at_start(s0, "¤(Boost)"@, "Boost"@, 2);
    crate::text::lemma_replace_mismatch_at_start(s0, "¤(Boost)"@, "boost"@, 2);
    crate::text::lemma_replace_mismatch_at_start(s0, "¤(I have)"@, "This card has"@, 2);
    crate::text::lemma_replace_mismatch_at_start(s0, "¤(i have)"@, "this card has"@, 2);
    assert(s0.subrange(0, "¤(C_to_lane)"@.len() as int) =~= "¤(C_to_lane)"@);
    crate::text::lemma_replace_at_start(s0, "¤(C_to_lane)"@, "Card's lane"@);
    let s1 = "Card's lane"@ + seq![' '] + t;
    assert(s0.subrange("¤(C_to_lane)"@.len() as int, s0.len() as int) =~= seq![' '] + t);
    assert("Card's lane"@ + (seq![' '] + t) =~= s1);
    crate::text::lemma_no_mark_joined("Card's lane"@, t);
    crate::text::lemma_replace_absent(s1, "¤(c_to_lane)"@, "card's lane"@);
    crate::text::lemma_replace_absent(s1, "¤(Choose_your_pos)"@, "Choose a position on your board"@);
    crate::text::lemma_replace_absent(s1, "¤(choose_your_pos)"@, "choose a position on your board"@);
    crate::text::lemma_replace_absent(s1, "¤(Choose_your_r)"@, "Choose one of your reserves"@);
    crate::text::lemma_replace_absent(s1, "¤(choose_your_r)"@, "choose one of your reserves"@);
    crate::text::lemma_replace_absent(s1, "¤(Choose_your_cpos)"@, "Choose one of your field positions"@);
    crate::text::lemma_replace_absent(s1, "¤(choose_your_cpos)"@, "choose one of your field positions"@);
    crate::text::lemma_replace_absent(s1, "¤(Pos_to_lane)"@, "Position's lane"@);
    crate::text::lemma_replace_absent(s1, "¤(pos_to_lane)"@, "position's lane"@);
    crate::text::lemma_replace_absent(s1, "¤(Move_me_to_r)"@, "Move this card to the chosen reserve"@);
    crate::text::lemma_replace_absent(s1, "¤(move_me_to_r)"@, "move this card to the chosen reserve"@);
    crate::text::lemma_replace_absent(s1, "¤(Attach_me_to_chosen)"@, "Attach this card to the chosen card"@);
    crate::text::lemma_replace_absent(s1, "¤(attach_me_to_chosen)"@, "attach this card to the chosen card"@);
    crate::text::lemma_replace_absent(s1, "¤(Xp)"@, "XP"@);
    crate::text::lemma_replace_absent(s1, "¤(xp)"@, "XP"@);
    crate::text::lemma_replace_absent(s1, "¤(Mana)"@, "Mana"@);
    crate::text::lemma_replace_absent(s1, "¤(mana)"@, "mana"@);
    crate::text::lemma_replace_absent(s1, "¤(Me)"@, "This card"@);
    crate::text::lemma_replace_absent(s1, "¤(me)"@, "this card"@);
    crate::text::lemma_replace_absent(s1, "¤(I)"@, "This card"@);
    crate::text::lemma_replace_absent(s1, "¤(I am)"@, "This card is"@);
    crate::text::lemma_replace_absent(s1, "¤(i)"@, "this card"@);
    crate::text::lemma_replace_absent(s1, "¤(i am)"@, "this card is"@);
    crate::text::lemma_replace_absent(s1, "¤(my)"@, "this card's"@);
    crate::text::lemma_replace_absent(s1, "¤(My)"@, "This card's"@);
    crate::text::lemma_replace_absent(s1, "¤(Set_my_pos_to_chosen)"@, "Move this card to the chosen position"@);
    crate::text::lemma_replace_absent(s1, "¤(set_my_pos_to_chosen)"@, "move this card to the chosen position"@);
}

/// `¤(c_to_lane)`, then a space and a text without `¤`: the command becomes `card's lane`.
proof fn lemma_bracket_command_13(t: Seq<char>)
    requires
        !t.contains('\u{a4}'),
    ensures
        replace_fixed_bracket("¤(c_to_lane)"@ + seq![' '] + t) == "card's lane"@ + seq![' '] + t,
{
    reveal_strlit("Any Phase");
    reveal_strlit("Attach this card to the chosen card");
    reveal_strlit("Boost");
    reveal_strlit("Card's lane");
    reveal_strlit("Choose a card you control");
    reveal_strlit("Choose a position on your board");
    reveal_strlit("Choose one of your field positions");
    reveal_strlit("Choose one of your reserves");
    reveal_strlit("Combat Only");
    reveal_strlit("Flip");
    reveal_strlit("Hand Only");
    reveal_strlit("Instant");
    reveal_strlit("Mana");
    reveal_strlit("Move this card to the chosen position");
    reveal_strlit("Move this card to the chosen reserve");
    reveal_strlit("Passing");
    reveal_strlit("Position's lane");
    reveal_strlit("Quick");
    reveal_strlit("This card");
    reveal_strlit("This card has");
    reveal_strlit("This card is");
    reveal_strlit("This card's");
    reveal_strlit("XP");
    reveal_strlit("attach this card to the chosen card");
    reveal_strlit("boost");
    reveal_strlit("card's lane");
    reveal_strlit("choose a card you control");
    reveal_strlit("choose a position on your board");
    reveal_strlit("choose one of your field positions");
    reveal_strlit("choose one of your reserves");
    reveal_strlit("mana");
    reveal_strlit("move this card to the chosen position");
    reveal_strlit("move this card to the chosen reserve");
    reveal_strlit("position's lane");
    reveal_strlit("this card");
    reveal_strlit("this card has");
    reveal_strlit("this card is");
    reveal_strlit("this card's");
    reveal_strlit("¤(Attach_me_to_chosen)");
    reveal_strlit("¤(Boost)");
    reveal_strlit("¤(C_to_lane)");
    reveal_strlit("¤(Choose_your_c)");
    reveal_strlit("¤(Choose_your_cpos)");
    reveal_strlit("¤(Choose_your_pos)");
    reveal_strlit("¤(Choose_your_r)");
    reveal_strlit("¤(I am)");
    reveal_strlit("¤(I have)");
    reveal_strlit("¤(I)");
    reveal_strlit("¤(Mana)");
    reveal_strlit("¤(Me)");
    reveal_strlit("¤(Move_me_to_r)");
    reveal_strlit("¤(My)");
    reveal_strlit("¤(Pos_to_lane)");
    reveal_strlit("¤(Set_my_pos_to_chosen)");
    reveal_strlit("¤(Xp)");
    reveal_strlit("¤(any_phase)");
    reveal_strlit("¤(attach_me_to_chosen)");
    reveal_strlit("¤(c_to_lane)");
    reveal_strlit("¤(choose_your_c)");
    reveal_strlit("¤(choose_your_cpos)");
    reveal_strlit("¤(choose_your_pos)");
    reveal_strlit("¤(choose_your_r)");
    reveal_strlit("¤(co)");
    reveal_strlit("¤(flip)");
    reveal_strlit("¤(ho)");
    reveal_strlit("¤(i am)");
    reveal_strlit("¤(i have)");
    reveal_strlit("¤(i)");
    reveal_strlit("¤(instant)");
    reveal_strlit("¤(mana)");
    reveal_strlit("¤(me)");
    reveal_strlit("¤(move_me_to_r)");
    reveal_strlit("¤(my)");
    reveal_strlit("¤(passing)");
    reveal_strlit("¤(pos_to_lane)");
    reveal_strlit("¤(quick)");
    reveal_strlit("¤(set_my_pos_to_chosen)");
    reveal_strlit("¤(xp)");
    let s0 = "¤(c_to_lane)"@ + seq![' '] + t;
    crate::text::lemma_mark_only_at_start("¤(c_to_lane)"@, t);
    crate::text::lemma_replace_mismatch_at_start(s0, "¤(ho)"@, "Hand Only"@, 2);
    crate::text::lemma_replace_mismatch_at_start(s0, "¤(co)"@, "Combat Only"@, 3);
    crate::text::lemma_replace_mismatch_at_start(s0, "¤(any_phase)"@, "Any Phase"@, 2);
    crate::text::lemma_replace_mismatch_at_start(s0, "¤(flip)"@, "Flip"@, 2);
    crate::text::lemma_replace_mismatch_at_start(s0, "¤(quick)"@, "Quick"@, 2);
    crate::text::lemma_replace_mismatch_at_start(s0, "¤(instant)"@, "Instant"@, 2);
    crate::text::lemma_replace_mismatch_at_start(s0, "¤(passing)"@, "Passing"@, 2);
    crate::text::lemma_replace_mismatch_at_start(s0, "¤(Choose_your_c)"@, "Choose a card you control"@, 2);
    crate::text::lemma_replace_mismatch_at_start(s0, "¤(choose_your_c)"@, "choose a card you control"@, 3);
    crate::text::lemma_replace_mismatch_at_start(s0, "¤(Boost)"@, "Boost"@, 2);
    crate::text::lemma_replace_mismatch_at_start(s0, "¤(Boost)"@, "boost"@, 2);
    crate::text::lemma_replace_mismatch_at_start(s0, "¤(I have)"@, "This card has"@, 2);
    crate::text::lemma_replace_mismatch_at_start(s0, "¤(i have)"@, "this card has"@, 2);
    crate::text::lemma_replace_mismatch_at_start(s0, "¤(C_to_lane)"@, "Card's lane"@, 2);
    assert(s0.subrange(0, "¤(c_to_lane)"@.len() as int) =~= "¤(c_to_lane)"@);
    crate::text::lemma_replace_at_start(s0, "¤(c_to_lane)"@, "card's lane"@);
    let s1 = "card's lane"@ + seq![' '] + t;
    assert(s0.subrange("¤(c_to_lane)"@.len() as int, s0.len() as int) =~= seq![' '] + t);
    assert("card's lane"@ + (seq![' '] + t) =~= s1);
    crate::text::lemma_no_mark_joined("card's lane"@, t);
    crate::text::lemma_replace_absent(s1, "¤(Choose_your_pos)"@, "Choose a position on your board"@);
    crate::text::lemma_replace_absent(s1, "¤(choose_your_pos)"@, "choose a position on your board"@);
    crate::text::lemma_replace_absent(s1, "¤(Choose_your_r)"@, "Choose one of your reserves"@);
    crate::text::lemma_replace_absent(s1, "¤(choose_your_r)"@, "choose one of your reserves"@);
    crate::text::lemma_replace_absent(s1, "¤(Choose_your_cpos)"@, "Choose one of your field positions"@);
    crate::text::lemma_replace_absent(s1, "¤(choose_your_cpos)"@, "choose one of your field positions"@);
    crate::text::lemma_replace_absent(s1, "¤(Pos_to_lane)"@, "Position's lane"@);
    crate::text::lemma_replace_absent(s1, "¤(pos_to_lane)"@, "position's lane"@);
    crate::text::lemma_replace_absent(s1, "¤(Move_me_to_r)"@, "Move this card to the chosen reserve"@);
    crate::text::lemma_replace_absent(s1, "¤(move_me_to_r)"@, "move this card to the chosen reserve"@);
    crate::text::lemma_replace_absent(s1, "¤(Attach_me_to_chosen)"@, "Attach this card to the chosen card"@);
    crate::text::lemma_replace_absent(s1, "¤(attach_me_to_chosen)"@, "attach this card to the chosen card"@);
    crate::text::lemma_replace_absent(s1, "¤(Xp)"@, "XP"@);
    crate::text::lemma_replace_absent(s1, "¤(xp)"@, "XP"@);
    crate::text::lemma_replace_absent(s1, "¤(Mana)"@, "Mana"@);
    crate::text::lemma_replace_absent(s1, "¤(mana)"@, "mana"@);
    crate::text::lemma_replace_absent(s1, "¤(Me)"@, "This card"@);
    crate::text::lemma_replace_absent(s1, "¤(me)"@, "this card"@);
    crate::text::lemma_replace_absent(s1, "¤(I)"@, "This card"@);
    crate::text::lemma_replace_absent(s1, "¤(I am)"@, "This card is"@);
    crate::text::lemma_replace_absent(s1, "¤(i)"@, "this card"@);
    crate::text::lemma_replace_absent(s1, "¤(i am)"@, "this card is"@);
    crate::text::lemma_replace_absent(s1, "¤(my)"@, "this card's"@);
    crate::text::lemma_replace_absent(s1, "¤(My)"@, "This card's"@);
    crate::text::lemma_replace_absent(s1, "¤(Set_my_pos_to_chosen)"@, "Move this card to the chosen position"@);
    crate::text::lemma_replace_absent(s1, "¤(set_my_pos_to_chosen)"@, "move this card to the chosen position"@);
}

/// `¤(Choose_your_pos)`, then a space and a text without `¤`: the command becomes `Choose a position on your board`.
proof fn lemma_bracket_command_14(t: Seq<char>)
    requires
        !t.contains('\u{a4}'),
    ensures
        replace_fixed_bracket("¤(Choose_your_pos)"@ + seq![' '] + t) == "Choose a position on your board"@ + seq![' '] + t,
{
    reveal_strlit("Any Phase");
    reveal_strlit("Attach this card to the chosen card");
    reveal_strlit("Boost");
    reveal_strlit("Card's lane");
    reveal_strlit("Choose a card you control");
    reveal_strlit("Choose a position on your board");
    reveal_strlit("Choose one of your field positions");
    reveal_strlit("Choose one of your reserves");
    reveal_strlit("Combat Only");
    reveal_strlit("Flip");
    reveal_strlit("Hand Only");
    reveal_strlit("Instant");
    reveal_strlit("Mana");
    reveal_strlit("Move this card to the chosen position");
    reveal_strlit("Move this card to the chosen reserve");
    reveal_strlit("Passing");
    reveal_strlit("Position's lane");
    reveal_strlit("Quick");
    reveal_strlit("This card");
    reveal_strlit("This card has");
    reveal_strlit("This card is");
    reveal_strlit("This card's");
    reveal_strlit("XP");
    reveal_strlit("attach this card to the chosen card");
    reveal_strlit("boost");
    reveal_strlit("card's lane");
    reveal_strlit("choose a card you control");
    reveal_strlit("choose a position on your board");
    reveal_strlit("choose one of your field positions");
    reveal_strlit("choose one of your reserves");
    reveal_strlit("mana");
    reveal_strlit("move this card to the chosen position");
    reveal_strlit("move this card to the chosen reserve");
    reveal_strlit("position's lane");
    reveal_strlit("this card");
    reveal_strlit("this card has");
    reveal_strlit("this card is");
    reveal_strlit("this card's");
    reveal_strlit("¤(Attach_me_to_chosen)");
    reveal_strlit("¤(Boost)");
    reveal_strlit("¤(C_to_lane)");
    reveal_strlit("¤(Choose_your_c)");
    reveal_strlit("¤(Choose_your_cpos)");
    reveal_strlit("¤(Choose_your_pos)");
    reveal_strlit("¤(Choose_your_r)");
    reveal_strlit("¤(I am)");
    reveal_strlit("¤(I have)");
    reveal_strlit("¤(I)");
    reveal_strlit("¤(Mana)");
    reveal_strlit("¤(Me)");
    reveal_strlit("¤(Move_me_to_r)");
    reveal_strlit("¤(My)");
    reveal_strlit("¤(Pos_to_lane)");
    reveal_strlit("¤(Set_my_pos_to_chosen)");
    reveal_strlit("¤(Xp)");
    reveal_strlit("¤(any_phase)");
    reveal_strlit("¤(attach_me_to_chosen)");
    reveal_strlit("¤(c_to_lane)");
    reveal_strlit("¤(choose_your_c)");
    reveal_strlit("¤(choose_your_cpos)");
    reveal_strlit("¤(choose_your_pos)");
    reveal_strlit("¤(choose_your_r)");
    reveal_strlit("¤(co)");
    reveal_strlit("¤(flip)");
    reveal_strlit("¤(ho)");
    reveal_strlit("¤(i am)");
    reveal_strlit("¤(i have)");
    reveal_strlit("¤(i)");
    reveal_strlit("¤(instant)");
    reveal_strlit("¤(mana)");
    reveal_strlit("¤(me)");
    reveal_strlit("¤(move_me_to_r)");
    reveal_strlit("¤(my)");
    reveal_strlit("¤(passing)");
    reveal_strlit("¤(pos_to_lane)");
    reveal_strlit("¤(quick)");
    reveal_strlit("¤(set_my_pos_to_chosen)");
    reveal_strlit("¤(xp)");
    let s0 = "¤(Choose_your_pos)"@ + seq![' '] + t;
    crate::text::lemma_mark_only_at_start("¤(Choose_your_pos)"@, t);
    crate::text::lemma_replace_mismatch_at_start(s0, "¤(ho)"@, "Hand Only"@, 2);
    crate::text::lemma_replace_mismatch_at_start(s0, "¤(co)"@, "Combat Only"@, 2);
    crate::text::lemma_replace_mismatch_at_start(s0, "¤(any_phase)"@, "Any Phase"@, 2);
    crate::text::lemma_replace_mismatch_at_start(s0, "¤(flip)"@, "Flip"@, 2);
    crate::text::lemma_replace_mismatch_at_start(s0, "¤(quick)"@, "Quick"@, 2);
    crate::text::lemma_replace_mismatch_at_start(s0, "¤(instant)"@, "Instant"@, 2);
    crate::text::lemma_replace_mismatch_at_start(s0, "¤(passing)"@, "Passing"@, 2);
    crate::text::lemma_replace_mismatch_at_start(s0, "¤(Choose_your_c)"@, "Choose a card you control"@, 14);
    crate::text::lemma_replace_mismatch_at_start(s0, "¤(choose_your_c)"@, "choose a card you control"@, 2);
    crate::text::lemma_replace_mismatch_at_start(s0, "¤(Boost)"@, "Boost"@, 2);
    crate::text::lemma_replace_mismatch_at_start(s0, "¤(Boost)"@, "boost"@, 2);
    crate::text::lemma_replace_mismatch_at_start(s0, "¤(I have)"@, "This card has"@, 2);
    crate::text::lemma_replace_mismatch_at_start(s0, "¤(i have)"@, "this card has"@, 2);
    crate::text::lemma_replace_mismatch_at_start(s0, "¤(C_to_lane)"@, "Card's lane"@, 3);
    crate::text::lemma_replace_mismatch_at_start(s0, "¤(c_to_lane)"@, "card's lane"@, 2);
    assert(s0.subrange(0, "¤(Choose_your_pos)"@.len() as int) =~= "¤(Choose_your_pos)"@);
    crate::text::lemma_replace_at_start(s0, "¤(Choose_your_pos)"@, "Choose a position on your board"@);
    let s1 = "Choose a position on your board"@ + seq![' '] + t;
    assert(s0.subrange("¤(Choose_your_pos)"@.len() as int, s0.len() as int) =~= seq![' '] + t);
    assert("Choose a position on your board"@ + (seq![' '] + t) =~= s1);
    crate::text::lemma_no_mark_joined("Choose a position on your board"@, t);
    crate::text::lemma_replace_absent(s1, "¤(choose_your_pos)"@, "choose a position on your board"@);
    crate::text::lemma_replace_absent(s1, "¤(Choose_your_r)"@, "Choose one of your reserves"@);
    crate::text::lemma_replace_absent(s1, "¤(choose_your_r)"@, "choose one of your reserves"@);
    crate::text::lemma_replace_absent(s1, "¤(Choose_your_cpos)"@, "Choose one of your field positions"@);
    crate::text::lemma_replace_absent(s1, "¤(choose_your_cpos)"@, "choose one of your field positions"@);
    crate::text::lemma_replace_absent(s1, "¤(Pos_to_lane)"@, "Position's lane"@);
    crate::text::lemma_replace_absent(s1, "¤(pos_to_lane)"@, "position's lane"@);
    crate::text::lemma_replace_absent(s1, "¤(Move_me_to_r)"@, "Move this card to the chosen reserve"@);
    crate::text::lemma_replace_absent(s1, "¤(move_me_to_r)"@, "move this card to the chosen reserve"@);
    crate::text::lemma_replace_absent(s1, "¤(Attach_me_to_chosen)"@, "Attach this card to the chosen card"@);
    crate::text::lemma_replace_absent(s1, "¤(attach_me_to_chosen)"@, "attach this card to the chosen card"@);
    crate::text::lemma_replace_absent(s1, "¤(Xp)"@, "XP"@);
    crate::text::lemma_replace_absent(s1, "¤(xp)"@, "XP"@);
    crate::text::lemma_replace_absent(s1, "¤(Mana)"@, "Mana"@);
    crate::text::lemma_replace_absent(s1, "¤(mana)"@, "mana"@);
    crate::text::lemma_replace_absent(s1, "¤(Me)"@, "This card"@);
    crate::text::lemma_replace_absent(s1, "¤(me)"@, "this card"@);
    crate::text::lemma_replace_absent(s1, "¤(I)"@, "This card"@);
    crate::text::lemma_replace_absent(s1, "¤(I am)"@, "This card is"@);
    crate::text::lemma_replace_absent(s1, "¤(i)"@, "this card"@);
    crate::text::lemma_replace_absent(s1, "¤(i am)"@, "this card is"@);
    crate::text::lemma_replace_absent(s1, "¤(my)"@, "this card's"@);
    crate::text::lemma_replace_absent(s1, "¤(My)"@, "This card's"@);
    crate::text::lemma_replace_absent(s1, "¤(Set_my_pos_to_chosen)"@, "Move this card to the chosen position"@);
    crate::text::lemma_replace_absent(s1, "¤(set_my_pos_to_chosen)"@, "move this card to the chosen position"@);
}

/// `¤(choose_your_pos)`, then a space and a text without `¤`: the command becomes `choose a position on your board`.
proof fn lemma_bracket_command_15(t: Seq<char>)
    requires
        !t.contains('\u{a4}'),
    ensures
        replace_fixed_bracket("¤(choose_your_pos)"@ + seq![' '] + t) == "choose a position on your board"@ + seq![' '] + t,
{
    reveal_strlit("Any Phase");
    reveal_strlit("Attach this card to the chosen card");
    reveal_strlit("Boost");
    reveal_strlit("Card's lane");
    reveal_strlit("Choose a card you control");
    reveal_strlit("Choose a position on your board");
    reveal_strlit("Choose one of your field positions");
    reveal_strlit("Choose one of your reserves");
    reveal_strlit("Combat Only");
    reveal_strlit("Flip");
    reveal_strlit("Hand Only");
    reveal_strlit("Instant");
    reveal_strlit("Mana");
    reveal_strlit("Move this card to the chosen position");
    reveal_strlit("Move this card to the chosen reserve");
    reveal_strlit("Passing");
    reveal_strlit("Position's lane");
    reveal_strlit("Quick");
    reveal_strlit("This card");
    reveal_strlit("This card has");
    reveal_strlit("This card is");
    reveal_strlit("This card's");
    reveal_strlit("XP");
    reveal_strlit("attach this card to the chosen card");
    reveal_strlit("boost");
    reveal_strlit("card's lane");
    reveal_strlit("choose a card you control");
    reveal_strlit("choose a position on your board");
    reveal_strlit("choose one of your field positions");
    reveal_strlit("choose one of your reserves");
    reveal_strlit("mana");
    reveal_strlit("move this card to the chosen position");
    reveal_strlit("move this card to the chosen reserve");
    reveal_strlit("position's lane");
    reveal_strlit("this card");
    reveal_strlit("this card has");
    reveal_strlit("this card is");
    reveal_strlit("this card's");
    reveal_strlit("¤(Attach_me_to_chosen)");
    reveal_strlit("¤(Boost)");
    reveal_strlit("¤(C_to_lane)");
    reveal_strlit("¤(Choose_your_c)");
    reveal_strlit("¤(Choose_your_cpos)");
    reveal_strlit("¤(Choose_your_pos)");
    reveal_strlit("¤(Choose_your_r)");
    reveal_strlit("¤(I am)");
    reveal_strlit("¤(I have)");
    reveal_strlit("¤(I)");
    reveal_strlit("¤(Mana)");
    reveal_strlit("¤(Me)");
    reveal_strlit("¤(Move_me_to_r)");
    reveal_strlit("¤(My)");
    reveal_strlit("¤(Pos_to_lane)");
    reveal_strlit("¤(Set_my_pos_to_chosen)");
    reveal_strlit("¤(Xp)");
    reveal_strlit("¤(any_phase)");
    reveal_strlit("¤(attach_me_to_chosen)");
    reveal_strlit("¤(c_to_lane)");
    reveal_strlit("¤(choose_your_c)");
    reveal_strlit("¤(choose_your_cpos)");
    reveal_strlit("¤(choose_your_pos)");
    reveal_strlit("¤(choose_your_r)");
    reveal_strlit("¤(co)");
    reveal_strlit("¤(flip)");
    reveal_strlit("¤(ho)");
    reveal_strlit("¤(i am)");
    reveal_strlit("¤(i have)");
    reveal_strlit("¤(i)");
    reveal_strlit("¤(instant)");
    reveal_strlit("¤(mana)");
    reveal_strlit("¤(me)");
    reveal_strlit("¤(move_me_to_r)");
    reveal_strlit("¤(my)");
    reveal_strlit("¤(passing)");
    reveal_strlit("¤(pos_to_lane)");
    reveal_strlit("¤(quick)");
    reveal_strlit("¤(set_my_pos_to_chosen)");
    reveal_strlit("¤(xp)");
    let s0 = "¤(choose_your_pos)"@ + seq![' '] + t;
    crate::text::lemma_mark_only_at_start("¤(choose_your_pos)"@, t);
    crate::text::lemma_replace_mismatch_at_start(s0, "¤(ho)"@, "Hand Only"@, 2);
    crate::text::lemma_replace_mismatch_at_start(s0, "¤(co)"@, "Combat Only"@, 3);
    crate::text::lemma_replace_mismatch_at_start(s0, "¤(any_phase)"@, "Any Phase"@, 2);
    crate::text::lemma_replace_mismatch_at_start(s0, "¤(flip)"@, "Flip"@, 2);
    crate::text::lemma_replace_mismatch_at_start(s0, "¤(quick)"@, "Quick"@, 2);
    crate::text::lemma_replace_mismatch_at_start(s0, "¤(instant)"@, "Instant"@, 2);
    crate::text::lemma_replace_mismatch_at_start(s0, "¤(passing)"@, "Passing"@, 2);
    crate::text::lemma_replace_mismatch_at_start(s0, "¤(Choose_your_c)"@, "Choose a card you control"@, 2);
    crate::text::lemma_replace_mismatch_at_start(s0, "¤(choose_your_c)"@, "choose a card you control"@, 14);
    crate::text::lemma_replace_mismatch_at_start(s0, "¤(Boost)"@, "Boost"@, 2);
    crate::text::lemma_replace_mismatch_at_start(s0, "¤(Boost)"@, "boost"@, 2);
    crate::text::lemma_replace_mismatch_at_start(s0, "¤(I have)"@, "This card has"@, 2);
    crate::text::lemma_replace_mismatch_at_start(s0, "¤(i have)"@, "this card has"@, 2);
    crate::text::lemma_replace_mismatch_at_start(s0, "¤(C_to_lane)"@, "Card's lane"@, 2);
    crate::text::lemma_replace_mismatch_at_start(s0, "¤(c_to_lane)"@, "card's lane"@, 3);
    crate::text::lemma_replace_mismatch_at_start(s0, "¤(Choose_your_pos)"@, "Choose a position on your board"@, 2);
    assert(s0.subrange(0, "¤(choose_your_pos)"@.len() as int) =~= "¤(choose_your_pos)"@);
    crate::text::lemma_replace_at_start(s0, "¤(choose_your_pos)"@, "choose a position on your board"@);
    let s1 = "choose a position on your board"@ + seq![' '] + t;
    assert(s0.subrange("¤(choose_your_pos)"@.len() as int, s0.len() as int) =~= seq![' '] + t);
    assert("choose a position on your board"@ + (seq![' '] + t) =~= s1);
    crate::text::lemma_no_mark_joined("choose a position on your board"@, t);
    crate::text::lemma_replace_absent(s1, "¤(Choose_your_r)"@, "Choose one of your reserves"@);
    crate::text::lemma_replace_absent(s1, "¤(choose_your_r)"@, "choose one of your reserves"@);
    crate::text::lemma_replace_absent(s1, "¤(Choose_your_cpos)"@, "Choose one of your field positions"@);
    crate::text::lemma_replace_absent(s1, "¤(choose_your_cpos)"@, "choose one of your field positions"@);
    crate::text::lemma_replace_absent(s1, "¤(Pos_to_lane)"@, "Position's lane"@);
    crate::text::lemma_replace_absent(s1, "¤(pos_to_lane)"@, "position's lane"@);
    crate::text::lemma_replace_absent(s1, "¤(Move_me_to_r)"@, "Move this card to the chosen reserve"@);
    crate::text::lemma_replace_absent(s1, "¤(move_me_to_r)"@, "move this card to the chosen reserve"@);
    crate::text::lemma_replace_absent(s1, "¤(Attach_me_to_chosen)"@, "Attach this card to the chosen card"@);
    crate::text::lemma_replace_absent(s1, "¤(attach_me_to_chosen)"@, "attach this card to the chosen card"@);
    crate::text::lemma_replace_absent(s1, "¤(Xp)"@, "XP"@);
    crate::text::lemma_replace_absent(s1, "¤(xp)"@, "XP"@);
    crate::text::lemma_replace_absent(s1, "¤(Mana)"@, "Mana"@);
    crate::text::lemma_replace_absent(s1, "¤(mana)"@, "mana"@);
    crate::text::lemma_replace_absent(s1, "¤(Me)"@, "This card"@);
    crate::text::lemma_replace_absent(s1, "¤(me)"@, "this card"@);
    crate::text::lemma_replace_absent(s1, "¤(I)"@, "This card"@);
    crate::text::lemma_replace_absent(s1, "¤(I am)"@, "This card is"@);
    crate::text::lemma_replace_absent(s1, "¤(i)"@, "this card"@);
    crate::text::lemma_replace_absent(s1, "¤(i am)"@, "this card is"@);
    crate::text::lemma_replace_absent(s1, "¤(my)"@, "this card's"@);
    crate::text::lemma_replace_absent(s1, "¤(My)"@, "This card's"@);
    crate::text::lemma_replace_absent(s1, "¤(Set_my_pos_to_chosen)"@, "Move this card to the chosen position"@);
    crate::text::lemma_replace_absent(s1, "¤(set_my_pos_to_chosen)"@, "move this card to the chosen position"@);
}

/// `¤(Choose_your_r)`, then a space and a text without `¤`: the command becomes `Choose one of your reserves`.
proof fn lemma_bracket_command_16(t: Seq<char>)
    requires
        !t.contains('\u{a4}'),
    ensures
        replace_fixed_bracket("¤(Choose_your_r)"@ + seq![' '] + t) == "Choose one of your reserves"@ + seq![' '] + t,
{
    reveal_strlit("Any Phase");
    reveal_strlit("Attach this card to the chosen card");
    reveal_strlit("Boost");
    reveal_strlit("Card's lane");
    reveal_strlit("Choose a card you control");
    reveal_strlit("Choose a position on your board");
    reveal_strlit("Choose one of your field positions");
    reveal_strlit("Choose one of your reserves");
    reveal_strlit("Combat Only");
    reveal_strlit("Flip");
    reveal_strlit("Hand Only");
    reveal_strlit("Instant");
    reveal_strlit("Mana");
    reveal_strlit("Move this card to the chosen position");
    reveal_strlit("Move this card to the chosen reserve");
    reveal_strlit("Passing");
    reveal_strlit("Position's lane");
    reveal_strlit("Quick");
    reveal_strlit("This card");
    reveal_strlit("This card has");
    reveal_strlit("This card is");
    reveal_strlit("This card's");
    reveal_strlit("XP");
    reveal_strlit("attach this card to the chosen card");
    reveal_strlit("boost");
    reveal_strlit("card's lane");
    reveal_strlit("choose a card you control");
    reveal_strlit("choose a position on your board");
    reveal_strlit("choose one of your field positions");
    reveal_strlit("choose one of your reserves");
    reveal_strlit("mana");
    reveal_strlit("move this card to the chosen position");
    reveal_strlit("move this card to the chosen reserve");
    reveal_strlit("position's lane");
    reveal_strlit("this card");
    reveal_strlit("this card has");
    reveal_strlit("this card is");
    reveal_strlit("this card's");
    reveal_strlit("¤(Attach_me_to_chosen)");
    reveal_strlit("¤(Boost)");
    reveal_strlit("¤(C_to_lane)");
    reveal_strlit("¤(Choose_your_c)");
    reveal_strlit("¤(Choose_your_cpos)");
    reveal_strlit("¤(Choose_your_pos)");
    reveal_strlit("¤(Choose_your_r)");
    reveal_strlit("¤(I am)");
    reveal_strlit("¤(I have)");
    reveal_strlit("¤(I)");
    reveal_strlit("¤(Mana)");
    reveal_strlit("¤(Me)");
    reveal_strlit("¤(Move_me_to_r)");
    reveal_strlit("¤(My)");
    reveal_strlit("¤(Pos_to_lane)");
    reveal_strlit("¤(Set_my_pos_to_chosen)");
    reveal_strlit("¤(Xp)");
    reveal_strlit("¤(any_phase)");
    reveal_strlit("¤(attach_me_to_chosen)");
    reveal_strlit("¤(c_to_lane)");
    reveal_strlit("¤(choose_your_c)");
    reveal_strlit("¤(choose_your_cpos)");
    reveal_strlit("¤(choose_your_pos)");
    reveal_strlit("¤(choose_your_r)");
    reveal_strlit("¤(co)");
    reveal_strlit("¤(flip)");
    reveal_strlit("¤(ho)");
    reveal_strlit("¤(i am)");
    reveal_strlit("¤(i have)");
    reveal_strlit("¤(i)");
    reveal_strlit("¤(instant)");
    reveal_strlit("¤(mana)");
    reveal_strlit("¤(me)");
    reveal_strlit("¤(move_me_to_r)");
    reveal_strlit("¤(my)");
    reveal_strlit("¤(passing)");
    reveal_strlit("¤(pos_to_lane)");
    reveal_strlit("¤(quick)");
    reveal_strlit("¤(set_my_pos_to_chosen)");
    reveal_strlit("¤(xp)");
    let s0 = "¤(Choose_your_r)"@ + seq![' '] + t;
    crate::text::lemma_mark_only_at_start("¤(Choose_your_r)"@, t);
    crate::text::lemma_replace_mismatch_at_start(s0, "¤(ho)"@, "Hand Only"@, 2);
    crate::text::lemma_replace_mismatch_at_start(s0, "¤(co)"@, "Combat Only"@, 2);
    crate::text::lemma_replace_mismatch_at_start(s0, "¤(any_phase)"@, "Any Phase"@, 2);
    crate::text::lemma_replace_mismatch_at_start(s0, "¤(flip)"@, "Flip"@, 2);
    crate::text::lemma_replace_mismatch_at_start(s0, "¤(quick)"@, "Quick"@, 2);
    crate::text::lemma_replace_mismatch_at_start(s0, "¤(instant)"@, "Instant"@, 2);
    crate::text::lemma_replace_mismatch_at_start(s0, "¤(passing)"@, "Passing"@, 2);
    crate::text::lemma_replace_mismatch_at_start(s0, "¤(Choose_your_c)"@, "Choose a card you control"@, 14);
    crate::text::lemma_replace_mismatch_at_start(s0, "¤(choose_your_c)"@, "choose a card you control"@, 2);
    crate::text::lemma_replace_mismatch_at_start(s0, "¤(Boost)"@, "Boost"@, 2);
    crate::text::lemma_replace_mismatch_at_start(s0, "¤(Boost)"@, "boost"@, 2);
    crate::text::lemma_replace_mismatch_at_start(s0, "¤(I have)"@, "This card has"@, 2);
    crate::text::lemma_replace_mismatch_at_start(s0, "¤(i have)"@, "this card has"@, 2);
    crate::text::lemma_replace_mismatch_at_start(s0, "¤(C_to_lane)"@, "Card's lane"@, 3);
    crate::text::lemma_replace_mismatch_at_start(s0, "¤(c_to_lane)"@, "card's lane"@, 2);
    crate::text::lemma_replace_mismatch_at_start(s0, "¤(Choose_your_pos)"@, "Choose a position on your board"@, 14);
    crate::text::lemma_replace_mismatch_at_start(s0, "¤(choose_your_pos)"@, "choose a position on your board"@, 2);
    assert(s0.subrange(0, "¤(Choose_your_r)"@.len() as int) =~= "¤(Choose_your_r)"@);
    crate::text::lemma_replace_at_start(s0, "¤(Choose_your_r)"@, "Choose one of your reserves"@);
    let s1 = "Choose one of your reserves"@ + seq![' '] + t;
    assert(s0.subrange("¤(Choose_your_r)"@.len() as int, s0.len() as int) =~= seq![' '] + t);
    assert("Choose one of your reserves"@ + (seq![' '] + t) =~= s1);
    crate::text::lemma_no_mark_joined("Choose one of your reserves"@, t);
    crate::text::lemma_replace_absent(s1, "¤(choose_your_r)"@, "choose one of your reserves"@);
    crate::text::lemma_replace_absent(s1, "¤(Choose_your_cpos)"@, "Choose one of your field positions"@);
    crate::text::lemma_replace_absent(s1, "¤(choose_your_cpos)"@, "choose one of your field positions"@);
    crate::text::lemma_replace_absent(s1, "¤(Pos_to_lane)"@, "Position's lane"@);
    crate::text::lemma_replace_absent(s1, "¤(pos_to_lane)"@, "position's lane"@);
    crate::text::lemma_replace_absent(s1, "¤(Move_me_to_r)"@, "Move this card to the chosen reserve"@);
    crate::text::lemma_replace_absent(s1, "¤(move_me_to_r)"@, "move this card to the chosen reserve"@);
    crate::text::lemma_replace_absent(s1, "¤(Attach_me_to_chosen)"@, "Attach this card to the chosen card"@);
    crate::text::lemma_replace_absent(s1, "¤(attach_me_to_chosen)"@, "attach this card to the chosen card"@);
    crate::text::lemma_replace_absent(s1, "¤(Xp)"@, "XP"@);
    crate::text::lemma_replace_absent(s1, "¤(xp)"@, "XP"@);
    crate::text::lemma_replace_absent(s1, "¤(Mana)"@, "Mana"@);
    crate::text::lemma_replace_absent(s1, "¤(mana)"@, "mana"@);
    crate::text::lemma_replace_absent(s1, "¤(Me)"@, "This card"@);
    crate::text::lemma_replace_absent(s1, "¤(me)"@, "this card"@);
    crate::text::lemma_replace_absent(s1, "¤(I)"@, "This card"@);
    crate::text::lemma_replace_absent(s1, "¤(I am)"@, "This card is"@);
    crate::text::lemma_replace_absent(s1, "¤(i)"@, "this card"@);
    crate::text::lemma_replace_absent(s1, "¤(i am)"@, "this card is"@);
    crate::text::lemma_replace_absent(s1, "¤(my)"@, "this card's"@);
    crate::text::lemma_replace_absent(s1, "¤(My)"@, "This card's"@);
    crate::text::lemma_replace_absent(s1, "¤(Set_my_pos_to_chosen)"@, "Move this card to the chosen position"@);
    crate::text::lemma_replace_absent(s1, "¤(set_my_pos_to_chosen)"@, "move this card to the chosen position"@);
}

/// `¤(choose_your_r)`, then a space and a text without `¤`: the command becomes `choose one of your reserves`.
proof fn lemma_bracket_command_17(t: Seq<char>)
    requires
        !t.contains('\u{a4}'),
    ensures
        replace_fixed_bracket("¤(choose_your_r)"@ + seq![' '] + t) == "choose one of your reserves"@ + seq![' '] + t,
{
    reveal_strlit("Any Phase");
    reveal_strlit("Attach this card to the chosen card");
    reveal_strlit("Boost");
    reveal_strlit("Card's lane");
    reveal_strlit("Choose a card you control");
    reveal_strlit("Choose a position on your board");
    reveal_strlit("Choose one of your field positions");
    reveal_strlit("Choose one of your reserves");
    reveal_strlit("Combat Only");
    reveal_strlit("Flip");
    reveal_strlit("Hand Only");
    reveal_strlit("Instant");
    reveal_strlit("Mana");
    reveal_strlit("Move this card to the chosen position");
    reveal_strlit("Move this card to the chosen reserve");
    reveal_strlit("Passing");
    reveal_strlit("Position's lane");
    reveal_strlit("Quick");
    reveal_strlit("This card");
    reveal_strlit("This card has");
    reveal_strlit("This card is");
    reveal_strlit("This card's");
    reveal_strlit("XP");
    reveal_strlit("attach this card to the chosen card");
    reveal_strlit("boost");
    reveal_strlit("card's lane");
    reveal_strlit("choose a card you control");
    reveal_strlit("choose a position on your board");
    reveal_strlit("choose one of your field positions");
    reveal_strlit("choose one of your reserves");
    reveal_strlit("mana");
    reveal_strlit("move this card to the chosen position");
    reveal_strlit("move this card to the chosen reserve");
    reveal_strlit("position's lane");
    reveal_strlit("this card");
    reveal_strlit("this card has");
    reveal_strlit("this card is");
    reveal_strlit("this card's");
    reveal_strlit("¤(Attach_me_to_chosen)");
    reveal_strlit("¤(Boost)");
    reveal_strlit("¤(C_to_lane)");
    reveal_strlit("¤(Choose_your_c)");
    reveal_strlit("¤(Choose_your_cpos)");
    reveal_strlit("¤(Choose_your_pos)");
    reveal_strlit("¤(Choose_your_r)");
    reveal_strlit("¤(I am)");
    reveal_strlit("¤(I have)");
    reveal_strlit("¤(I)");
    reveal_strlit("¤(Mana)");
    reveal_strlit("¤(Me)");
    reveal_strlit("¤(Move_me_to_r)");
    reveal_strlit("¤(My)");
    reveal_strlit("¤(Pos_to_lane)");
    reveal_strlit("¤(Set_my_pos_to_chosen)");
    reveal_strlit("¤(Xp)");
    reveal_strlit("¤(any_phase)");
    reveal_strlit("¤(attach_me_to_chosen)");
    reveal_strlit("¤(c_to_lane)");
    reveal_strlit("¤(choose_your_c)");
    reveal_strlit("¤(choose_your_cpos)");
    reveal_strlit("¤(choose_your_pos)");
    reveal_strlit("¤(choose_your_r)");
    reveal_strlit("¤(co)");
    reveal_strlit("¤(flip)");
    reveal_strlit("¤(ho)");
    reveal_strlit("¤(i am)");
    reveal_strlit("¤(i have)");
    reveal_strlit("¤(i)");
    reveal_strlit("¤(instant)");
    reveal_strlit("¤(mana)");
    reveal_strlit("¤(me)");
    reveal_strlit("¤(move_me_to_r)");
    reveal_strlit("¤(my)");
    reveal_strlit("¤(passing)");
    reveal_strlit("¤(pos_to_lane)");
    reveal_strlit("¤(quick)");
    reveal_strlit("¤(set_my_pos_to_chosen)");
    reveal_strlit("¤(xp)");
    let s0 = "¤(choose_your_r)"@ + seq![' '] + t;
    crate::text::lemma_mark_only_at_start("¤(choose_your_r)"@, t);
    crate::text::lemma_replace_mismatch_at_start(s0, "¤(ho)"@, "Hand Only"@, 2);
    crate::text::lemma_replace_mismatch_at_start(s0, "¤(co)"@, "Combat Only"@, 3);
    crate::text::lemma_replace_mismatch_at_start(s0, "¤(any_phase)"@, "Any Phase"@, 2);
    crate::text::lemma_replace_mismatch_at_start(s0, "¤(flip)"@, "Flip"@, 2);
    crate::text::lemma_replace_mismatch_at_start(s0, "¤(quick)"@, "Quick"@, 2);
    crate::text::lemma_replace_mismatch_at_start(s0, "¤(instant)"@, "Instant"@, 2);
    crate::text::lemma_replace_mismatch_at_start(s0, "¤(passing)"@, "Passing"@, 2);
    crate::text::lemma_replace_mismatch_at_start(s0, "¤(Choose_your_c)"@, "Choose a card you control"@, 2);
    crate::text::lemma_replace_mismatch_at_start(s0, "¤(choose_your_c)"@, "choose a card you control"@, 14);
    crate::text::lemma_replace_mismatch_at_start(s0, "¤(Boost)"@, "Boost"@, 2);
    crate::text::lemma_replace_mismatch_at_start(s0, "¤(Boost)"@, "boost"@, 2);
    crate::text::lemma_replace_mismatch_at_start(s0, "¤(I have)"@, "This card has"@, 2);
    crate::text::lemma_replace_mismatch_at_start(s0, "¤(i have)"@, "this card has"@, 2);
    crate::text::lemma_replace_mismatch_at_start(s0, "¤(C_to_lane)"@, "Card's lane"@, 2);
    crate::text::lemma_replace_mismatch_at_start(s0, "¤(c_to_lane)"@, "card's lane"@, 3);
    crate::text::lemma_replace_mismatch_at_start(s0, "¤(Choose_your_pos)"@, "Choose a position on your board"@, 2);
    crate::text::lemma_replace_mismatch_at_start(s0, "¤(choose_your_pos)"@, "choose a position on your board"@, 14);
    crate::text::lemma_replace_mismatch_at_start(s0, "¤(Choose_your_r)"@, "Choose one of your reserves"@, 2);
    assert(s0.subrange(0, "¤(choose_your_r)"@.len() as int) =~= "¤(choose_your_r)"@);
    crate::text::lemma_replace_at_start(s0, "¤(choose_your_r)"@, "choose one of your reserves"@);
    let s1 = "choose one of your reserves"@ + seq![' '] + t;
    assert(s0.subrange("¤(choose_your_r)"@.len() as int, s0.len() as int) =~= seq![' '] + t);
    assert("choose one of your reserves"@ + (seq![' '] + t) =~= s1);
    crate::text::lemma_no_mark_joined("choose one of your reserves"@, t);
    crate::text::lemma_replace_absent(s1, "¤(Choose_your_cpos)"@, "Choose one of your field positions"@);
    crate::text::lemma_replace_absent(s1, "¤(choose_your_cpos)"@, "choose one of your field positions"@);
    crate::text::lemma_replace_absent(s1, "¤(Pos_to_lane)"@, "Position's lane"@);
    crate::text::lemma_replace_absent(s1, "¤(pos_to_lane)"@, "position's lane"@);
    crate::text::lemma_replace_absent(s1, "¤(Move_me_to_r)"@, "Move this card to the chosen reserve"@);
    crate::text::lemma_replace_absent(s1, "¤(move_me_to_r)"@, "move this card to the chosen reserve"@);
    crate::text::lemma_replace_absent(s1, "¤(Attach_me_to_chosen)"@, "Attach this card to the chosen card"@);
    crate::text::lemma_replace_absent(s1, "¤(attach_me_to_chosen)"@, "attach this card to the chosen card"@);
    crate::text::lemma_replace_absent(s1, "¤(Xp)"@, "XP"@);
    crate::text::lemma_replace_absent(s1, "¤(xp)"@, "XP"@);
    crate::text::lemma_replace_absent(s1, "¤(Mana)"@, "Mana"@);
    crate::text::lemma_replace_absent(s1, "¤(mana)"@, "mana"@);
    crate::text::lemma_replace_absent(s1, "¤(Me)"@, "This card"@);
    crate::text::lemma_replace_absent(s1, "¤(me)"@, "this card"@);
    crate::text::lemma_replace_absent(s1, "¤(I)"@, "This card"@);
    crate::text::lemma_replace_absent(s1, "¤(I am)"@, "This card is"@);
    crate::text::lemma_replace_absent(s1, "¤(i)"@, "this card"@);
    crate::text::lemma_replace_absent(s1, "¤(i am)"@, "this card is"@);
    crate::text::lemma_replace_absent(s1, "¤(my)"@, "this card's"@);
    crate::text::lemma_replace_absent(s1, "¤(My)"@, "This card's"@);
    crate::text::lemma_replace_absent(s1, "¤(Set_my_pos_to_chosen)"@, "Move this card to the chosen position"@);
    crate::text::lemma_replace_absent(s1, "¤(set_my_pos_to_chosen)"@, "move this card to the chosen position"@);
}

/// `¤(Choose_your_cpos)`, then a space and a text without `¤`: the command becomes `Choose one of your field positions`.
proof fn lemma_bracket_command_18(t: Seq<char>)
    requires
        !t.contains('\u{a4}'),
    ensures
        replace_fixed_bracket("¤(Choose_your_cpos)"@ + seq![' '] + t) == "Choose one of your field positions"@ + seq![' '] + t,
{
    reveal_strlit("Any Phase");
    reveal_strlit("Attach this card to the chosen card");
    reveal_strlit("Boost");
    reveal_strlit("Card's lane");
    reveal_strlit("Choose a card you control");
    reveal_strlit("Choose a position on your board");
    reveal_strlit("Choose one of your field positions");
    reveal_strlit("Choose one of your reserves");
    reveal_strlit("Combat Only");
    reveal_strlit("Flip");
    reveal_strlit("Hand Only");
    reveal_strlit("Instant");
    reveal_strlit("Mana");
    reveal_strlit("Move this card to the chosen position");
    reveal_strlit("Move this card to the chosen reserve");
    reveal_strlit("Passing");
    reveal_strlit("Position's lane");
    reveal_strlit("Quick");
    reveal_strlit("This card");
    reveal_strlit("This card has");
    reveal_strlit("This card is");
    reveal_strlit("This card's");
    reveal_strlit("XP");
    reveal_strlit("attach this card to the chosen card");
    reveal_strlit("boost");
    reveal_strlit("card's lane");
    reveal_strlit("choose a card you control");
    reveal_strlit("choose a position on your board");
    reveal_strlit("choose one of your field positions");
    reveal_strlit("choose one of your reserves");
    reveal_strlit("mana");
    reveal_strlit("move this card to the chosen position");
    reveal_strlit("move this card to the chosen reserve");
    reveal_strlit("position's lane");
    reveal_strlit("this card");
    reveal_strlit("this card has");
    reveal_strlit("this card is");
    reveal_strlit("this card's");
    reveal_strlit("¤(Attach_me_to_chosen)");
    reveal_strlit("¤(Boost)");
    reveal_strlit("¤(C_to_lane)");
    reveal_strlit("¤(Choose_your_c)");
    reveal_strlit("¤(Choose_your_cpos)");
    reveal_strlit("¤(Choose_your_pos)");
    reveal_strlit("¤(Choose_your_r)");
    reveal_strlit("¤(I am)");
    reveal_strlit("¤(I have)");
    reveal_strlit("¤(I)");
    reveal_strlit("¤(Mana)");
    reveal_strlit("¤(Me)");
    reveal_strlit("¤(Move_me_to_r)");
    reveal_strlit("¤(My)");
    reveal_strlit("¤(Pos_to_lane)");
    reveal_strlit("¤(Set_my_pos_to_chosen)");
    reveal_strlit("¤(Xp)");
    reveal_strlit("¤(any_phase)");
    reveal_strlit("¤(attach_me_to_chosen)");
    reveal_strlit("¤(c_to_lane)");
    reveal_strlit("¤(choose_your_c)");
    reveal_strlit("¤(choose_your_cpos)");
    reveal_strlit("¤(choose_your_pos)");
    reveal_strlit("¤(choose_your_r)");
    reveal_strlit("¤(co)");
    reveal_strlit("¤(flip)");
    reveal_strlit("¤(ho)");
    reveal_strlit("¤(i am)");
    reveal_strlit("¤(i have)");
    reveal_strlit("¤(i)");
    reveal_strlit("¤(instant)");
    reveal_strlit("¤(mana)");
    reveal_strlit("¤(me)");
    reveal_strlit("¤(move_me_to_r)");
    reveal_strlit("¤(my)");
    reveal_strlit("¤(passing)");
    reveal_strlit("¤(pos_to_lane)");
    reveal_strlit("¤(quick)");
    reveal_strlit("¤(set_my_pos_to_chosen)");
    reveal_strlit("¤(xp)");
    let s0 = "¤(Choose_your_cpos)"@ + seq![' '] + t;
    crate::text::lemma_mark_only_at_start("¤(Choose_your_cpos)"@, t);
    crate::text::lemma_replace_mismatch_at_start(s0, "¤(ho)"@, "Hand Only"@, 2);
    crate::text::lemma_replace_mismatch_at_start(s0, "¤(co)"@, "Combat Only"@, 2);
    crate::text::lemma_replace_mismatch_at_start(s0, "¤(any_phase)"@, "Any Phase"@, 2);
    crate::text::lemma_replace_mismatch_at_start(s0, "¤(flip)"@, "Flip"@, 2);
    crate::text::lemma_replace_mismatch_at_start(s0, "¤(quick)"@, "Quick"@, 2);
    crate::text::lemma_replace_mismatch_at_start(s0, "¤(instant)"@, "Instant"@, 2);
    crate::text::lemma_replace_mismatch_at_start(s0, "¤(passing)"@, "Passing"@, 2);
    crate::text::lemma_replace_mismatch_at_start(s0, "¤(Choose_your_c)"@, "Choose a card you control"@, 15);
    crate::text::lemma_replace_mismatch_at_start(s0, "¤(choose_your_c)"@, "choose a card you control"@, 2);
    crate::text::lemma_replace_mismatch_at_start(s0, "¤(Boost)"@, "Boost"@, 2);
    crate::text::lemma_replace_mismatch_at_start(s0, "¤(Boost)"@, "boost"@, 2);
    crate::text::lemma_replace_mismatch_at_start(s0, "¤(I have)"@, "This card has"@, 2);
    crate::text::lemma_replace_mismatch_at_start(s0, "¤(i have)"@, "this card has"@, 2);
    crate::text::lemma_replace_mismatch_at_start(s0, "¤(C_to_lane)"@, "Card's lane"@, 3);
    crate::text::lemma_replace_mismatch_at_start(s0, "¤(c_to_lane)"@, "card's lane"@, 2);
    crate::text::lemma_replace_mismatch_at_start(s0, "¤(Choose_your_pos)"@, "Choose a position on your board"@, 14);
    crate::text::lemma_replace_mismatch_at_start(s0, "¤(choose_your_pos)"@, "choose a position on your board"@, 2);
    crate::text::lemma_replace_mismatch_at_start(s0, "¤(Choose_your_r)"@, "Choose one of your reserves"@, 14);
    crate::text::lemma_replace_mismatch_at_start(s0, "¤(choose_your_r)"@, "choose one of your reserves"@, 2);
    assert(s0.subrange(0, "¤(Choose_your_cpos)"@.len() as int) =~= "¤(Choose_your_cpos)"@);
    crate::text::lemma_replace_at_start(s0, "¤(Choose_your_cpos)"@, "Choose one of your field positions"@);
    let s1 = "Choose one of your field positions"@ + seq![' '] + t;
    assert(s0.subrange("¤(Choose_your_cpos)"@.len() as int, s0.len() as int) =~= seq![' '] + t);
    assert("Choose one of your field positions"@ + (seq![' '] + t) =~= s1);
    crate::text::lemma_no_mark_joined("Choose one of your field positions"@, t);
    crate::text::lemma_replace_absent(s1, "¤(choose_your_cpos)"@, "choose one of your field positions"@);
    crate::text::lemma_replace_absent(s1, "¤(Pos_to_lane)"@, "Position's lane"@);
    crate::text::lemma_replace_absent(s1, "¤(pos_to_lane)"@, "position's lane"@);
    crate::text::lemma_replace_absent(s1, "¤(Move_me_to_r)"@, "Move this card to the chosen reserve"@);
    crate::text::lemma_replace_absent(s1, "¤(move_me_to_r)"@, "move this card to the chosen reserve"@);
    crate::text::lemma_replace_absent(s1, "¤(Attach_me_to_chosen)"@, "Attach this card to the chosen card"@);
    crate::text::lemma_replace_absent(s1, "¤(attach_me_to_chosen)"@, "attach this card to the chosen card"@);
    crate::text::lemma_replace_absent(s1, "¤(Xp)"@, "XP"@);
    crate::text::lemma_replace_absent(s1, "¤(xp)"@, "XP"@);
    crate::text::lemma_replace_absent(s1, "¤(Mana)"@, "Mana"@);
    crate::text::lemma_replace_absent(s1, "¤(mana)"@, "mana"@);
    crate::text::lemma_replace_absent(s1, "¤(Me)"@, "This card"@);
    crate::text::lemma_replace_absent(s1, "¤(me)"@, "this card"@);
    crate::text::lemma_replace_absent(s1, "¤(I)"@, "This card"@);
    crate::text::lemma_replace_absent(s1, "¤(I am)"@, "This card is"@);
    crate::text::lemma_replace_absent(s1, "¤(i)"@, "this card"@);
    crate::text::lemma_replace_absent(s1, "¤(i am)"@, "this card is"@);
    crate::text::lemma_replace_absent(s1, "¤(my)"@, "this card's"@);
    crate::text::lemma_replace_absent(s1, "¤(My)"@, "This card's"@);
    crate::text::lemma_replace_absent(s1, "¤(Set_my_pos_to_chosen)"@, "Move this card to the chosen position"@);
    crate::text::lemma_replace_absent(s1, "¤(set_my_pos_to_chosen)"@, "move this card to the chosen position"@);
}

/// `¤(choose_your_cpos)`, then a space and a text without `¤`: the command becomes `choose one of your field positions`.
proof fn lemma_bracket_command_19(t: Seq<char>)
    requires
        !t.contains('\u{a4}'),
    ensures
        replace_fixed_bracket("¤(choose_your_cpos)"@ + seq![' '] + t) == "choose one of your field positions"@ + seq![' '] + t,
{
    reveal_strlit("Any Phase");
    reveal_strlit("Attach this card to the chosen card");
    reveal_strlit("Boost");
    reveal_strlit("Card's lane");
    reveal_strlit("Choose a card you control");
    reveal_strlit("Choose a position on your board");
    reveal_strlit("Choose one of your field positions");
    reveal_strlit("Choose one of your reserves");
    reveal_strlit("Combat Only");
    reveal_strlit("Flip");
    reveal_strlit("Hand Only");
    reveal_strlit("Instant");
    reveal_strlit("Mana");
    reveal_strlit("Move this card to the chosen position");
    reveal_strlit("Move this card to the chosen reserve");
    reveal_strlit("Passing");
    reveal_strlit("Position's lane");
    reveal_strlit("Quick");
    reveal_strlit("This card");
    reveal_strlit("This card has");
    reveal_strlit("This card is");
    reveal_strlit("This card's");
    reveal_strlit("XP");
    reveal_strlit("attach this card to the chosen card");
    reveal_strlit("boost");
    reveal_strlit("card's lane");
    reveal_strlit("choose a card you control");
    reveal_strlit("choose a position on your board");
    reveal_strlit("choose one of your field positions");
    reveal_strlit("choose one of your reserves");
    reveal_strlit("mana");
    reveal_strlit("move this card to the chosen position");
    reveal_strlit("move this card to the chosen reserve");
    reveal_strlit("position's lane");
    reveal_strlit("this card");
    reveal_strlit("this card has");
    reveal_strlit("this card is");
    reveal_strlit("this card's");
    reveal_strlit("¤(Attach_me_to_chosen)");
    reveal_strlit("¤(Boost)");
    reveal_strlit("¤(C_to_lane)");
    reveal_strlit("¤(Choose_your_c)");
    reveal_strlit("¤(Choose_your_cpos)");
    reveal_strlit("¤(Choose_your_pos)");
    reveal_strlit("¤(Choose_your_r)");
    reveal_strlit("¤(I am)");
    reveal_strlit("¤(I have)");
    reveal_strlit("¤(I)");
    reveal_strlit("¤(Mana)");
    reveal_strlit("¤(Me)");
    reveal_strlit("¤(Move_me_to_r)");
    reveal_strlit("¤(My)");
    reveal_strlit("¤(Pos_to_lane)");
    reveal_strlit("¤(Set_my_pos_to_chosen)");
    reveal_strlit("¤(Xp)");
    reveal_strlit("¤(any_phase)");
    reveal_strlit("¤(attach_me_to_chosen)");
    reveal_strlit("¤(c_to_lane)");
    reveal_strlit("¤(choose_your_c)");
    reveal_strlit("¤(choose_your_cpos)");
    reveal_strlit("¤(choose_your_pos)");
    reveal_strlit("¤(choose_your_r)");
    reveal_strlit("¤(co)");
    reveal_strlit("¤(flip)");
    reveal_strlit("¤(ho)");
    reveal_strlit("¤(i am)");
    reveal_strlit("¤(i have)");
    reveal_strlit("¤(i)");
    reveal_strlit("¤(instant)");
    reveal_strlit("¤(mana)");
    reveal_strlit("¤(me)");
    reveal_strlit("¤(move_me_to_r)");
    reveal_strlit("¤(my)");
    reveal_strlit("¤(passing)");
    reveal_strlit("¤(pos_to_lane)");
    reveal_strlit("¤(quick)");
    reveal_strlit("¤(set_my_pos_to_chosen)");
    reveal_strlit("¤(xp)");
    let s0 = "¤(choose_your_cpos)"@ + seq![' '] + t;
    crate::text::lemma_mark_only_at_start("¤(choose_your_cpos)"@, t);
    crate::text::lemma_replace_mismatch_at_start(s0, "¤(ho)"@, "Hand Only"@, 2);
    crate::text::lemma_replace_mismatch_at_start(s0, "¤(co)"@, "Combat Only"@, 3);
    crate::text::lemma_replace_mismatch_at_start(s0, "¤(any_phase)"@, "Any Phase"@, 2);
    crate::text::lemma_replace_mismatch_at_start(s0, "¤(flip)"@, "Flip"@, 2);
    crate::text::lemma_replace_mismatch_at_start(s0, "¤(quick)"@, "Quick"@, 2);
    crate::text::lemma_replace_mismatch_at_start(s0, "¤(instant)"@, "Instant"@, 2);
    crate::text::lemma_replace_mismatch_at_start(s0, "¤(passing)"@, "Passing"@, 2);
    crate::text::lemma_replace_mismatch_at_start(s0, "¤(Choose_your_c)"@, "Choose a card you control"@, 2);
    crate::text::lemma_replace_mismatch_at_start(s0, "¤(choose_your_c)"@, "choose a card you control"@, 15);
    crate::text::lemma_replace_mismatch_at_start(s0, "¤(Boost)"@, "Boost"@, 2);
    crate::text::lemma_replace_mismatch_at_start(s0, "¤(Boost)"@, "boost"@, 2);
    crate::text::lemma_replace_mismatch_at_start(s0, "¤(I have)"@, "This card has"@, 2);
    crate::text::lemma_replace_mismatch_at_start(s0, "¤(i have)"@, "this card has"@, 2);
    crate::text::lemma_replace_mismatch_at_start(s0, "¤(C_to_lane)"@, "Card's lane"@, 2);
    crate::text::lemma_replace_mismatch_at_start(s0, "¤(c_to_lane)"@, "card's lane"@, 3);
    crate::text::lemma_replace_mismatch_at_start(s0, "¤(Choose_your_pos)"@, "Choose a position on your board"@, 2);
    crate::text::lemma_replace_mismatch_at_start(s0, "¤(choose_your_pos)"@, "choose a position on your board"@, 14);
    crate::text::lemma_replace_mismatch_at_start(s0, "¤(Choose_your_r)"@, "Choose one of your reserves"@, 2);
    crate::text::lemma_replace_mismatch_at_start(s0, "¤(choose_your_r)"@, "choose one of your reserves"@, 14);
    crate::text::lemma_replace_mismatch_at_start(s0, "¤(Choose_your_cpos)"@, "Choose one of your field positions"@, 2);
    assert(s0.subrange(0, "¤(choose_your_cpos)"@.len() as int) =~= "¤(choose_your_cpos)"@);
    crate::text::lemma_replace_at_start(s0, "¤(choose_your_cpos)"@, "choose one of your field positions"@);
    let s1 = "choose one of your field positions"@ + seq![' '] + t;
    assert(s0.subrange("¤(choose_your_cpos)"@.len() as int, s0.len() as int) =~= seq![' '] + t);
    assert("choose one of your field positions"@ + (seq![' '] + t) =~= s1);
    crate::text::lemma_no_mark_joined("choose one of your field positions"@, t);
    crate::text::lemma_replace_absent(s1, "¤(Pos_to_lane)"@, "Position's lane"@);
    crate::text::lemma_replace_absent(s1, "¤(pos_to_lane)"@, "position's lane"@);
    crate::text::lemma_replace_absent(s1, "¤(Move_me_to_r)"@, "Move this card to the chosen reserve"@);
    crate::text::lemma_replace_absent(s1, "¤(move_me_to_r)"@, "move this card to the chosen reserve"@);
    crate::text::lemma_replace_absent(s1, "¤(Attach_me_to_chosen)"@, "Attach this card to the chosen card"@);
    crate::text::lemma_replace_absent(s1, "¤(attach_me_to_chosen)"@, "attach this card to the chosen card"@);
    crate::text::lemma_replace_absent(s1, "¤(Xp)"@, "XP"@);
    crate::text::lemma_replace_absent(s1, "¤(xp)"@, "XP"@);
    crate::text::lemma_replace_absent(s1, "¤(Mana)"@, "Mana"@);
    crate::text::lemma_replace_absent(s1, "¤(mana)"@, "mana"@);
    crate::text::lemma_replace_absent(s1, "¤(Me)"@, "This card"@);
    crate::text::lemma_replace_absent(s1, "¤(me)"@, "this card"@);
    crate::text::lemma_replace_absent(s1, "¤(I)"@, "This card"@);
    crate::text::lemma_replace_absent(s1, "¤(I am)"@, "This card is"@);
    crate::text::lemma_replace_absent(s1, "¤(i)"@, "this card"@);
    crate::text::lemma_replace_absent(s1, "¤(i am)"@, "this card is"@);
    crate::text::lemma_replace_absent(s1, "¤(my)"@, "this card's"@);
    crate::text::lemma_replace_absent(s1, "¤(My)"@, "This card's"@);
    crate::text::lemma_replace_absent(s1, "¤(Set_my_pos_to_chosen)"@, "Move this card to the chosen position"@);
    crate::text::lemma_replace_absent(s1, "¤(set_my_pos_to_chosen)"@, "move this card to the chosen position"@);
}

/// `¤(Pos_to_lane)`, then a space and a text without `¤`: the command becomes `Position's lane`.
proof fn lemma_bracket_command_20(t: Seq<char>)
    requires
        !t.contains('\u{a4}'),
    ensures
        replace_fixed_bracket("¤(Pos_to_lane)"@ + seq![' '] + t) == "Position's lane"@ + seq![' '] + t,
{
    reveal_strlit("Any Phase");
    reveal_strlit("Attach this card to the chosen card");
    reveal_strlit("Boost");
    reveal_strlit("Card's lane");
    reveal_strlit("Choose a card you control");
    reveal_strlit("Choose a position on your board");
    reveal_strlit("Choose one of your field positions");
    reveal_strlit("Choose one of your reserves");
    reveal_strlit("Combat Only");
    reveal_strlit("Flip");
    reveal_strlit("Hand Only");
    reveal_strlit("Instant");
    reveal_strlit("Mana");
    reveal_strlit("Move this card to the chosen position");
    reveal_strlit("Move this card to the chosen reserve");
    reveal_strlit("Passing");
    reveal_strlit("Position's lane");
    reveal_strlit("Quick");
    reveal_strlit("This card");
    reveal_strlit("This card has");
    reveal_strlit("This card is");
    reveal_strlit("This card's");
    reveal_strlit("XP");
    reveal_strlit("attach this card to the chosen card");
    reveal_strlit("boost");
    reveal_strlit("card's lane");
    reveal_strlit("choose a card you control");
    reveal_strlit("choose a position on your board");
    reveal_strlit("choose one of your field positions");
    reveal_strlit("choose one of your reserves");
    reveal_strlit("mana");
    reveal_strlit("move this card to the chosen position");
    reveal_strlit("move this card to the chosen reserve");
    reveal_strlit("position's lane");
    reveal_strlit("this card");
    reveal_strlit("this card has");
    reveal_strlit("this card is");
    reveal_strlit("this card's");
    reveal_strlit("¤(Attach_me_to_chosen)");
    reveal_strlit("¤(Boost)");
    reveal_strlit("¤(C_to_lane)");
    reveal_strlit("¤(Choose_your_c)");
    reveal_strlit("¤(Choose_your_cpos)");
    reveal_strlit("¤(Choose_your_pos)");
    reveal_strlit("¤(Choose_your_r)");
    reveal_strlit("¤(I am)");
    reveal_strlit("¤(I have)");
    reveal_strlit("¤(I)");
    reveal_strlit("¤(Mana)");
    reveal_strlit("¤(Me)");
    reveal_strlit("¤(Move_me_to_r)");
    reveal_strlit("¤(My)");
    reveal_strlit("¤(Pos_to_lane)");
    reveal_strlit("¤(Set_my_pos_to_chosen)");
    reveal_strlit("¤(Xp)");
    reveal_strlit("¤(any_phase)");
    reveal_strlit("¤(attach_me_to_chosen)");
    reveal_strlit("¤(c_to_lane)");
    reveal_strlit("¤(choose_your_c)");
    reveal_strlit("¤(choose_your_cpos)");
    reveal_strlit("¤(choose_your_pos)");
    reveal_strlit("¤(choose_your_r)");
    reveal_strlit("¤(co)");
    reveal_strlit("¤(flip)");
    reveal_strlit("¤(ho)");
    reveal_strlit("¤(i am)");
    reveal_strlit("¤(i have)");
    reveal_strlit("¤(i)");
    reveal_strlit("¤(instant)");
    reveal_strlit("¤(mana)");
    reveal_strlit("¤(me)");
    reveal_strlit("¤(move_me_to_r)");
    reveal_strlit("¤(my)");
    reveal_strlit("¤(passing)");
    reveal_strlit("¤(pos_to_lane)");
    reveal_strlit("¤(quick)");
    reveal_strlit("¤(set_my_pos_to_chosen)");
    reveal_strlit("¤(xp)");
    let s0 = "¤(Pos_to_lane)"@ + seq![' '] + t;
    crate::text::lemma_mark_only_at_start("¤(Pos_to_lane)"@, t);
    crate::text::lemma_replace_mismatch_at_start(s0, "¤(ho)"@, "Hand Only"@, 2);
    crate::text::lemma_replace_mismatch_at_start(s0, "¤(co)"@, "Combat Only"@, 2);
    crate::text::lemma_replace_mismatch_at_start(s0, "¤(any_phase)"@, "Any Phase"@, 2);
    crate::text::lemma_replace_mismatch_at_start(s0, "¤(flip)"@, "Flip"@, 2);
    crate::text::lemma_replace_mismatch_at_start(s0, "¤(quick)"@, "Quick"@, 2);
    crate::text::lemma_replace_mismatch_at_start(s0, "¤(instant)"@, "Instant"@, 2);
    crate::text::lemma_replace_mismatch_at_start(s0, "¤(passing)"@, "Passing"@, 2);
    crate::text::lemma_replace_mismatch_at_start(s0, "¤(Choose_your_c)"@, "Choose a card you control"@, 2);
    crate::text::lemma_replace_mismatch_at_start(s0, "¤(choose_your_c)"@, "choose a card you control"@, 2);
    crate::text::lemma_replace_mismatch_at_start(s0, "¤(Boost)"@, "Boost"@, 2);
    crate::text::lemma_replace_mismatch_at_start(s0, "¤(Boost)"@, "boost"@, 2);
    crate::text::lemma_replace_mismatch_at_start(s0, "¤(I have)"@, "This card has"@, 2);
    crate::text::lemma_replace_mismatch_at_start(s0, "¤(i have)"@, "this card has"@, 2);
    crate::text::lemma_replace_mismatch_at_start(s0, "¤(C_to_lane)"@, "Card's lane"@, 2);
    crate::text::lemma_replace_mismatch_at_start(s0, "¤(c_to_lane)"@, "card's lane"@, 2);
    crate::text::lemma_replace_mismatch_at_start(s0, "¤(Choose_your_pos)"@, "Choose a position on your board"@, 2);
    crate::text::lemma_replace_mismatch_at_start(s0, "¤(choose_your_pos)"@, "choose a position on your board"@, 2);
    crate::text::lemma_replace_mismatch_at_start(s0, "¤(Choose_your_r)"@, "Choose one of your reserves"@, 2);
    crate::text::lemma_replace_mismatch_at_start(s0, "¤(choose_your_r)"@, "choose one of your reserves"@, 2);
    crate::text::lemma_replace_mismatch_at_start(s0, "¤(Choose_your_cpos)"@, "Choose one of your field positions"@, 2);
    crate::text::lemma_replace_mismatch_at_start(s0, "¤(choose_your_cpos)"@, "choose one of your field positions"@, 2);
    assert(s0.subrange(0, "¤(Pos_to_lane)"@.len() as int) =~= "¤(Pos_to_lane)"@);
    crate::text::lemma_replace_at_start(s0, "¤(Pos_to_lane)"@, "Position's lane"@);
    let s1 = "Position's lane"@ + seq![' '] + t;
    assert(s0.subrange("¤(Pos_to_lane)"@.len() as int, s0.len() as int) =~= seq![' '] + t);
    assert("Position's lane"@ + (seq![' '] + t) =~= s1);
    crate::text::lemma_no_mark_joined("Position's lane"@, t);
    crate::text::lemma_replace_absent(s1, "¤(pos_to_lane)"@, "position's lane"@);
    crate::text::lemma_replace_absent(s1, "¤(Move_me_to_r)"@, "Move this card to the chosen reserve"@);
    crate::text::lemma_replace_absent(s1, "¤(move_me_to_r)"@, "move this card to the chosen reserve"@);
    crate::text::lemma_replace_absent(s1, "¤(Attach_me_to_chosen)"@, "Attach this card to the chosen card"@);
    crate::text::lemma_replace_absent(s1, "¤(attach_me_to_chosen)"@, "attach this card to the chosen card"@);
    crate::text::lemma_replace_absent(s1, "¤(Xp)"@, "XP"@);
    crate::text::lemma_replace_absent(s1, "¤(xp)"@, "XP"@);
    crate::text::lemma_replace_absent(s1, "¤(Mana)"@, "Mana"@);
    crate::text::lemma_replace_absent(s1, "¤(mana)"@, "mana"@);
    crate::text::lemma_replace_absent(s1, "¤(Me)"@, "This card"@);
    crate::text::lemma_replace_absent(s1, "¤(me)"@, "this card"@);
    crate::text::lemma_replace_absent(s1, "¤(I)"@, "This card"@);
    crate::text::lemma_replace_absent(s1, "¤(I am)"@, "This card is"@);
    crate::text::lemma_replace_absent(s1, "¤(i)"@, "this card"@);
    crate::text::lemma_replace_absent(s1, "¤(i am)"@, "this card is"@);
    crate::text::lemma_replace_absent(s1, "¤(my)"@, "this card's"@);
    crate::text::lemma_replace_absent(s1, "¤(My)"@, "This card's"@);
    crate::text::lemma_replace_absent(s1, "¤(Set_my_pos_to_chosen)"@, "Move this card to the chosen position"@);
    crate::text::lemma_replace_absent(s1, "¤(set_my_pos_to_chosen)"@, "move this card to the chosen position"@);
}

/// `¤(pos_to_lane)`, then a space and a text without `¤`: the command becomes `position's lane`.
proof fn lemma_bracket_command_21(t: Seq<char>)
    requires
        !t.contains('\u{a4}'),
    ensures
        replace_fixed_bracket("¤(pos_to_lane)"@ + seq![' '] + t) == "position's lane"@ + seq![' '] + t,
{
    reveal_strlit("Any Phase");
    reveal_strlit("Attach this card to the chosen card");
    reveal_strlit("Boost");
    reveal_strlit("Card's lane");
    reveal_strlit("Choose a card you control");
    reveal_strlit("Choose a position on your board");
    reveal_strlit("Choose one of your field positions");
    reveal_strlit("Choose one of your reserves");
    reveal_strlit("Combat Only");
    reveal_strlit("Flip");
    reveal_strlit("Hand Only");
    reveal_strlit("Instant");
    reveal_strlit("Mana");
    reveal_strlit("Move this card to the chosen position");
    reveal_strlit("Move this card to the chosen reserve");
    reveal_strlit("Passing");
    reveal_strlit("Position's lane");
    reveal_strlit("Quick");
    reveal_strlit("This card");
    reveal_strlit("This card has");
    reveal_strlit("This card is");
    reveal_strlit("This card's");
    reveal_strlit("XP");
    reveal_strlit("attach this card to the chosen card");
    reveal_strlit("boost");
    reveal_strlit("card's lane");
    reveal_strlit("choose a card you control");
    reveal_strlit("choose a position on your board");
    reveal_strlit("choose one of your field positions");
    reveal_strlit("choose one of your reserves");
    reveal_strlit("mana");
    reveal_strlit("move this card to the chosen position");
    reveal_strlit("move this card to the chosen reserve");
    reveal_strlit("position's lane");
    reveal_strlit("this card");
    reveal_strlit("this card has");
    reveal_strlit("this card is");
    reveal_strlit("this card's");
    reveal_strlit("¤(Attach_me_to_chosen)");
    reveal_strlit("¤(Boost)");
    reveal_strlit("¤(C_to_lane)");
    reveal_strlit("¤(Choose_your_c)");
    reveal_strlit("¤(Choose_your_cpos)");
    reveal_strlit("¤(Choose_your_pos)");
    reveal_strlit("¤(Choose_your_r)");
    reveal_strlit("¤(I am)");
    reveal_strlit("¤(I have)");
    reveal_strlit("¤(I)");
    reveal_strlit("¤(Mana)");
    reveal_strlit("¤(Me)");
    reveal_strlit("¤(Move_me_to_r)");
    reveal_strlit("¤(My)");
    reveal_strlit("¤(Pos_to_lane)");
    reveal_strlit("¤(Set_my_pos_to_chosen)");
    reveal_strlit("¤(Xp)");
    reveal_strlit("¤(any_phase)");
    reveal_strlit("¤(attach_me_to_chosen)");
    reveal_strlit("¤(c_to_lane)");
    reveal_strlit("¤(choose_your_c)");
    reveal_strlit("¤(choose_your_cpos)");
    reveal_strlit("¤(choose_your_pos)");
    reveal_strlit("¤(choose_your_r)");
    reveal_strlit("¤(co)");
    reveal_strlit("¤(flip)");
    reveal_strlit("¤(ho)");
    reveal_strlit("¤(i am)");
    reveal_strlit("¤(i have)");
    reveal_strlit("¤(i)");
    reveal_strlit("¤(instant)");
    reveal_strlit("¤(mana)");
    reveal_strlit("¤(me)");
    reveal_strlit("¤(move_me_to_r)");
    reveal_strlit("¤(my)");
    reveal_strlit("¤(passing)");
    reveal_strlit("¤(pos_to_lane)");
    reveal_strlit("¤(quick)");
    reveal_strlit("¤(set_my_pos_to_chosen)");
    reveal_strlit("¤(xp)");
    let s0 = "¤(pos_to_lane)"@ + seq![' '] + t;
    crate::text::lemma_mark_only_at_start("¤(pos_to_lane)"@, t);
    crate::text::lemma_replace_mismatch_at_start(s0, "¤(ho)"@, "Hand Only"@, 2);
    crate::text::lemma_replace_mismatch_at_start(s0, "¤(co)"@, "Combat Only"@, 2);
    crate::text::lemma_replace_mismatch_at_start(s0, "¤(any_phase)"@, "Any Phase"@, 2);
    crate::text::lemma_replace_mismatch_at_start(s0, "¤(flip)"@, "Flip"@, 2);
    crate::text::lemma_replace_mismatch_at_start(s0, "¤(quick)"@, "Quick"@, 2);
    crate::text::lemma_replace_mismatch_at_start(s0, "¤(instant)"@, "Instant"@, 2);
    crate::text::lemma_replace_mismatch_at_start(s0, "¤(passing)"@, "Passing"@, 3);
    crate::text::lemma_replace_mismatch_at_start(s0, "¤(Choose_your_c)"@, "Choose a card you control"@, 2);
    crate::text::lemma_replace_mismatch_at_start(s0, "¤(choose_your_c)"@, "choose a card you control"@, 2);
    crate::text::lemma_replace_mismatch_at_start(s0, "¤(Boost)"@, "Boost"@, 2);
    crate::text::lemma_replace_mismatch_at_start(s0, "¤(Boost)"@, "boost"@, 2);
    crate::text::lemma_replace_mismatch_at_start(s0, "¤(I have)"@, "This card has"@, 2);
    crate::text::lemma_replace_mismatch_at_start(s0, "¤(i have)"@, "this card has"@, 2);
    crate::text::lemma_replace_mismatch_at_start(s0, "¤(C_to_lane)"@, "Card's lane"@, 2);
    crate::text::lemma_replace_mismatch_at_start(s0, "¤(c_to_lane)"@, "card's lane"@, 2);
    crate::text::lemma_replace_mismatch_at_start(s0, "¤(Choose_your_pos)"@, "Choose a position on your board"@, 2);
    crate::text::lemma_replace_mismatch_at_start(s0, "¤(choose_your_pos)"@, "choose a position on your board"@, 2);
    crate::text::lemma_replace_mismatch_at_start(s0, "¤(Choose_your_r)"@, "Choose one of your reserves"@, 2);
    crate::text::lemma_replace_mismatch_at_start(s0, "¤(choose_your_r)"@, "choose one of your reserves"@, 2);
    crate::text::lemma_replace_mismatch_at_start(s0, "¤(Choose_your_cpos)"@, "Choose one of your field positions"@, 2);
    crate::text::lemma_replace_mismatch_at_start(s0, "¤(choose_your_cpos)"@, "choose one of your field positions"@, 2);
    crate::text::lemma_replace_mismatch_at_start(s0, "¤(Pos_to_lane)"@, "Position's lane"@, 2);
    assert(s0.subrange(0, "¤(pos_to_lane)"@.len() as int) =~= "¤(pos_to_lane)"@);
    crate::text::lemma_replace_at_start(s0, "¤(pos_to_lane)"@, "position's lane"@);
    let s1 = "position's lane"@ + seq![' '] + t;
    assert(s0.subrange("¤(pos_to_lane)"@.len() as int, s0.len() as int) =~= seq![' '] + t);
    assert("position's lane"@ + (seq![' '] + t) =~= s1);
    crate::text::lemma_no_mark_joined("position's lane"@, t);
    crate::text::lemma_replace_absent(s1, "¤(Move_me_to_r)"@, "Move this card to the chosen reserve"@);
    crate::text::lemma_replace_absent(s1, "¤(move_me_to_r)"@, "move this card to the chosen reserve"@);
    crate::text::lemma_replace_absent(s1, "¤(Attach_me_to_chosen)"@, "Attach this card to the chosen card"@);
    crate::text::lemma_replace_absent(s1, "¤(attach_me_to_chosen)"@, "attach this card to the chosen card"@);
    crate::text::lemma_replace_absent(s1, "¤(Xp)"@, "XP"@);
    crate::text::lemma_replace_absent(s1, "¤(xp)"@, "XP"@);
    crate::text::lemma_replace_absent(s1, "¤(Mana)"@, "Mana"@);
    crate::text::lemma_replace_absent(s1, "¤(mana)"@, "mana"@);
    crate::text::lemma_replace_absent(s1, "¤(Me)"@, "This card"@);
    crate::text::lemma_replace_absent(s1, "¤(me)"@, "this card"@);
    crate::text::lemma_replace_absent(s1, "¤(I)"@, "This card"@);
    crate::text::lemma_replace_absent(s1, "¤(I am)"@, "This card is"@);
    crate::text::lemma_replace_absent(s1, "¤(i)"@, "this card"@);
    crate::text::lemma_replace_absent(s1, "¤(i am)"@, "this card is"@);
    crate::text::lemma_replace_absent(s1, "¤(my)"@, "this card's"@);
    crate::text::lemma_replace_absent(s1, "¤(My)"@, "This card's"@);
    crate::text::lemma_replace_absent(s1, "¤(Set_my_pos_to_chosen)"@, "Move this card to the chosen position"@);
    crate::text::lemma_replace_absent(s1, "¤(set_my_pos_to_chosen)"@, "move this card to the chosen position"@);
}

/// `¤(Move_me_to_r)`, then a space and a text without `¤`: the command becomes `Move this card to the chosen reserve`.
proof fn lemma_bracket_command_22(t: Seq<char>)
    requires
        !t.contains('\u{a4}'),
    ensures
        replace_fixed_bracket("¤(Move_me_to_r)"@ + seq![' '] + t) == "Move this card to the chosen reserve"@ + seq![' '] + t,
{
    reveal_strlit("Any Phase");
    reveal_strlit("Attach this card to the chosen card");
    reveal_strlit("Boost");
    reveal_strlit("Card's lane");
    reveal_strlit("Choose a card you control");
    reveal_strlit("Choose a position on your board");
    reveal_strlit("Choose one of your field positions");
    reveal_strlit("Choose one of your reserves");
    reveal_strlit("Combat Only");
    reveal_strlit("Flip");
    reveal_strlit("Hand Only");
    reveal_strlit("Instant");
    reveal_strlit("Mana");
    reveal_strlit("Move this card to the chosen position");
    reveal_strlit("Move this card to the chosen reserve");
    reveal_strlit("Passing");
    reveal_strlit("Position's lane");
    reveal_strlit("Quick");
    reveal_strlit("This card");
    reveal_strlit("This card has");
    reveal_strlit("This card is");
    reveal_strlit("This card's");
    reveal_strlit("XP");
    reveal_strlit("attach this card to the chosen card");
    reveal_strlit("boost");
    reveal_strlit("card's lane");
    reveal_strlit("choose a card you control");
    reveal_strlit("choose a position on your board");
    reveal_strlit("choose one of your field positions");
    reveal_strlit("choose one of your reserves");
    reveal_strlit("mana");
    reveal_strlit("move this card to the chosen position");
    reveal_strlit("move this card to the chosen reserve");
    reveal_strlit("position's lane");
    reveal_strlit("this card");
    reveal_strlit("this card has");
    reveal_strlit("this card is");
    reveal_strlit("this card's");
    reveal_strlit("¤(Attach_me_to_chosen)");
    reveal_strlit("¤(Boost)");
    reveal_strlit("¤(C_to_lane)");
    reveal_strlit("¤(Choose_your_c)");
    reveal_strlit("¤(Choose_your_cpos)");
    reveal_strlit("¤(Choose_your_pos)");
    reveal_strlit("¤(Choose_your_r)");
    reveal_strlit("¤(I am)");
    reveal_strlit("¤(I have)");
    reveal_strlit("¤(I)");
    reveal_strlit("¤(Mana)");
    reveal_strlit("¤(Me)");
    reveal_strlit("¤(Move_me_to_r)");
    reveal_strlit("¤(My)");
    reveal_strlit("¤(Pos_to_lane)");
    reveal_strlit("¤(Set_my_pos_to_chosen)");
    reveal_strlit("¤(Xp)");
    reveal_strlit("¤(any_phase)");
    reveal_strlit("¤(attach_me_to_chosen)");
    reveal_strlit("¤(c_to_lane)");
    reveal_strlit("¤(choose_your_c)");
    reveal_strlit("¤(choose_your_cpos)");
    reveal_strlit("¤(choose_your_pos)");
    reveal_strlit("¤(choose_your_r)");
    reveal_strlit("¤(co)");
    reveal_strlit("¤(flip)");
    reveal_strlit("¤(ho)");
    reveal_strlit("¤(i am)");
    reveal_strlit("¤(i have)");
    reveal_strlit("¤(i)");
    reveal_strlit("¤(instant)");
    reveal_strlit("¤(mana)");
    reveal_strlit("¤(me)");
    reveal_strlit("¤(move_me_to_r)");
    reveal_strlit("¤(my)");
    reveal_strlit("¤(passing)");
    reveal_strlit("¤(pos_to_lane)");
    reveal_strlit("¤(quick)");
    reveal_strlit("¤(set_my_pos_to_chosen)");
    reveal_strlit("¤(xp)");
    let s0 = "¤(Move_me_to_r)"@ + seq![' '] + t;
    crate::text::lemma_mark_only_at_start("¤(Move_me_to_r)"@, t);
    crate::text::lemma_replace_mismatch_at_start(s0, "¤(ho)"@, "Hand Only"@, 2);
    crate::text::lemma_replace_mismatch_at_start(s0, "¤(co)"@, "Combat Only"@, 2);
    crate::text::lemma_replace_mismatch_at_start(s0, "¤(any_phase)"@, "Any Phase"@, 2);
    crate::text::lemma_replace_mismatch_at_start(s0, "¤(flip)"@, "Flip"@, 2);
    crate::text::lemma_replace_mismatch_at_start(s0, "¤(quick)"@, "Quick"@, 2);
    crate::text::lemma_replace_mismatch_at_start(s0, "¤(instant)"@, "Instant"@, 2);
    crate::text::lemma_replace_mismatch_at_start(s0, "¤(passing)"@, "Passing"@, 2);
    crate::text::lemma_replace_mismatch_at_start(s0, "¤(Choose_your_c)"@, "Choose a card you control"@, 2);
    crate::text::lemma_replace_mismatch_at_start(s0, "¤(choose_your_c)"@, "choose a card you control"@, 2);
    crate::text::lemma_replace_mismatch_at_start(s0, "¤(Boost)"@, "Boost"@, 2);
    crate::text::lemma_replace_mismatch_at_start(s0, "¤(Boost)"@, "boost"@, 2);
    crate::text::lemma_replace_mismatch_at_start(s0, "¤(I have)"@, "This card has"@, 2);
    crate::text::lemma_replace_mismatch_at_start(s0, "¤(i have)"@, "this card has"@, 2);
    crate::text::lemma_replace_mismatch_at_start(s0, "¤(C_to_lane)"@, "Card's lane"@, 2);
    crate::text::lemma_replace_mismatch_at_start(s0, "¤(c_to_lane)"@, "card's lane"@, 2);
    crate::text::lemma_replace_mismatch_at_start(s0, "¤(Choose_your_pos)"@, "Choose a position on your board"@, 2);
    crate::text::lemma_replace_mismatch_at_start(s0, "¤(choose_your_pos)"@, "choose a position on your board"@, 2);
    crate::text::lemma_replace_mismatch_at_start(s0, "¤(Choose_your_r)"@, "Choose one of your reserves"@, 2);
    crate::text::lemma_replace_mismatch_at_start(s0, "¤(choose_your_r)"@, "choose one of your reserves"@, 2);
    crate::text::lemma_replace_mismatch_at_start(s0, "¤(Choose_your_cpos)"@, "Choose one of your field positions"@, 2);
    crate::text::lemma_replace_mismatch_at_start(s0, "¤(choose_your_cpos)"@, "choose one of your field positions"@, 2);
    crate::text::lemma_replace_mismatch_at_start(s0, "¤(Pos_to_lane)"@, "Position's lane"@, 2);
    crate::text::lemma_replace_mismatch_at_start(s0, "¤(pos_to_lane)"@, "position's lane"@, 2);
    assert(s0.subrange(0, "¤(Move_me_to_r)"@.len() as int) =~= "¤(Move_me_to_r)"@);
    crate::text::lemma_replace_at_start(s0, "¤(Move_me_to_r)"@, "Move this card to the chosen reserve"@);
    let s1 = "Move this card to the chosen reserve"@ + seq![' '] + t;
    assert(s0.subrange("¤(Move_me_to_r)"@.len() as int, s0.len() as int) =~= seq![' '] + t);
    assert("Move this card to the chosen reserve"@ + (seq![' '] + t) =~= s1);
    crate::text::lemma_no_mark_joined("Move this card to the chosen reserve"@, t);
    crate::text::lemma_replace_absent(s1, "¤(move_me_to_r)"@, "move this card to the chosen reserve"@);
    crate::text::lemma_replace_absent(s1, "¤(Attach_me_to_chosen)"@, "Attach this card to the chosen card"@);
    crate::text::lemma_replace_absent(s1, "¤(attach_me_to_chosen)"@, "attach this card to the chosen card"@);
    crate::text::lemma_replace_absent(s1, "¤(Xp)"@, "XP"@);
    crate::text::lemma_replace_absent(s1, "¤(xp)"@, "XP"@);
    crate::text::lemma_replace_absent(s1, "¤(Mana)"@, "Mana"@);
    crate::text::lemma_replace_absent(s1, "¤(mana)"@, "mana"@);
    crate::text::lemma_replace_absent(s1, "¤(Me)"@, "This card"@);
    crate::text::lemma_replace_absent(s1, "¤(me)"@, "this card"@);
    crate::text::lemma_replace_absent(s1, "¤(I)"@, "This card"@);
    crate::text::lemma_replace_absent(s1, "¤(I am)"@, "This card is"@);
    crate::text::lemma_replace_absent(s1, "¤(i)"@, "this card"@);
    crate::text::lemma_replace_absent(s1, "¤(i am)"@, "this card is"@);
    crate::text::lemma_replace_absent(s1, "¤(my)"@, "this card's"@);
    crate::text::lemma_replace_absent(s1, "¤(My)"@, "This card's"@);
    crate::text::lemma_replace_absent(s1, "¤(Set_my_pos_to_chosen)"@, "Move this card to the chosen position"@);
    crate::text::lemma_replace_absent(s1, "¤(set_my_pos_to_chosen)"@, "move this card to the chosen position"@);
}

/// `¤(move_me_to_r)`, then a space and a text without `¤`: the command becomes `move this card to the chosen reserve`.
proof fn lemma_bracket_command_23(t: Seq<char>)
    requires
        !t.contains('\u{a4}'),
    ensures
        replace_fixed_bracket("¤(move_me_to_r)"@ + seq![' '] + t) == "move this card to the chosen reserve"@ + seq![' '] + t,
{
    reveal_strlit("Any Phase");
    reveal_strlit("Attach this card to the chosen card");
    reveal_strlit("Boost");
    reveal_strlit("Card's lane");
    reveal_strlit("Choose a card you control");
    reveal_strlit("Choose a position on your board");
    reveal_strlit("Choose one of your field positions");
    reveal_strlit("Choose one of your reserves");
    reveal_strlit("Combat Only");
    reveal_strlit("Flip");
    reveal_strlit("Hand Only");
    reveal_strlit("Instant");
    reveal_strlit("Mana");
    reveal_strlit("Move this card to the chosen position");
    reveal_strlit("Move this card to the chosen reserve");
    reveal_strlit("Passing");
    reveal_strlit("Position's lane");
    reveal_strlit("Quick");
    reveal_strlit("This card");
    reveal_strlit("This card has");
    reveal_strlit("This card is");
    reveal_strlit("This card's");
    reveal_strlit("XP");
    reveal_strlit("attach this card to the chosen card");
    reveal_strlit("boost");
    reveal_strlit("card's lane");
    reveal_strlit("choose a card you control");
    reveal_strlit("choose a position on your board");
    reveal_strlit("choose one of your field positions");
    reveal_strlit("choose one of your reserves");
    reveal_strlit("mana");
    reveal_strlit("move this card to the chosen position");
    reveal_strlit("move this card to the chosen reserve");
    reveal_strlit("position's lane");
    reveal_strlit("this card");
    reveal_strlit("this card has");
    reveal_strlit("this card is");
    reveal_strlit("this card's");
    reveal_strlit("¤(Attach_me_to_chosen)");
    reveal_strlit("¤(Boost)");
    reveal_strlit("¤(C_to_lane)");
    reveal_strlit("¤(Choose_your_c)");
    reveal_strlit("¤(Choose_your_cpos)");
    reveal_strlit("¤(Choose_your_pos)");
    reveal_strlit("¤(Choose_your_r)");
    reveal_strlit("¤(I am)");
    reveal_strlit("¤(I have)");
    reveal_strlit("¤(I)");
    reveal_strlit("¤(Mana)");
    reveal_strlit("¤(Me)");
    reveal_strlit("¤(Move_me_to_r)");
    reveal_strlit("¤(My)");
    reveal_strlit("¤(Pos_to_lane)");
    reveal_strlit("¤(Set_my_pos_to_chosen)");
    reveal_strlit("¤(Xp)");
    reveal_strlit("¤(any_phase)");
    reveal_strlit("¤(attach_me_to_chosen)");
    reveal_strlit("¤(c_to_lane)");
    reveal_strlit("¤(choose_your_c)");
    reveal_strlit("¤(choose_your_cpos)");
    reveal_strlit("¤(choose_your_pos)");
    reveal_strlit("¤(choose_your_r)");
    reveal_strlit("¤(co)");
    reveal_strlit("¤(flip)");
    reveal_strlit("¤(ho)");
    reveal_strlit("¤(i am)");
    reveal_strlit("¤(i have)");
    reveal_strlit("¤(i)");
    reveal_strlit("¤(instant)");
    reveal_strlit("¤(mana)");
    reveal_strlit("¤(me)");
    reveal_strlit("¤(move_me_to_r)");
    reveal_strlit("¤(my)");
    reveal_strlit("¤(passing)");
    reveal_strlit("¤(pos_to_lane)");
    reveal_strlit("¤(quick)");
    reveal_strlit("¤(set_my_pos_to_chosen)");
    reveal_strlit("¤(xp)");
    let s0 = "¤(move_me_to_r)"@ + seq![' '] + t;
    crate::text::lemma_mark_only_at_start("¤(move_me_to_r)"@, t);
    crate::text::lemma_replace_mismatch_at_start(s0, "¤(ho)"@, "Hand Only"@, 2);
    crate::text::lemma_replace_mismatch_at_start(s0, "¤(co)"@, "Combat Only"@, 2);
    crate::text::lemma_replace_mismatch_at_start(s0, "¤(any_phase)"@, "Any Phase"@, 2);
    crate::text::lemma_replace_mismatch_at_start(s0, "¤(flip)"@, "Flip"@, 2);
    crate::text::lemma_replace_mismatch_at_start(s0, "¤(quick)"@, "Quick"@, 2);
    crate::text::lemma_replace_mismatch_at_start(s0, "¤(instant)"@, "Instant"@, 2);
    crate::text::lemma_replace_mismatch_at_start(s0, "¤(passing)"@, "Passing"@, 2);
    crate::text::lemma_replace_mismatch_at_start(s0, "¤(Choose_your_c)"@, "Choose a card you control"@, 2);
    crate::text::lemma_replace_mismatch_at_start(s0, "¤(choose_your_c)"@, "choose a card you control"@, 2);
    crate::text::lemma_replace_mismatch_at_start(s0, "¤(Boost)"@, "Boost"@, 2);
    crate::text::lemma_replace_mismatch_at_start(s0, "¤(Boost)"@, "boost"@, 2);
    crate::text::lemma_replace_mismatch_at_start(s0, "¤(I have)"@, "This card has"@, 2);
    crate::text::lemma_replace_mismatch_at_start(s0, "¤(i have)"@, "this card has"@, 2);
    crate::text::lemma_replace_mismatch_at_start(s0, "¤(C_to_lane)"@, "Card's lane"@, 2);
    crate::text::lemma_replace_mismatch_at_start(s0, "¤(c_to_lane)"@, "card's lane"@, 2);
    crate::text::lemma_replace_mismatch_at_start(s0, "¤(Choose_your_pos)"@, "Choose a position on your board"@, 2);
    crate::text::lemma_replace_mismatch_at_start(s0, "¤(choose_your_pos)"@, "choose a position on your board"@, 2);
    crate::text::lemma_replace_mismatch_at_start(s0, "¤(Choose_your_r)"@, "Choose one of your reserves"@, 2);
    crate::text::lemma_replace_mismatch_at_start(s0, "¤(choose_your_r)"@, "choose one of your reserves"@, 2);
    crate::text::lemma_replace_mismatch_at_start(s0, "¤(Choose_your_cpos)"@, "Choose one of your field positions"@, 2);
    crate::text::lemma_replace_mismatch_at_start(s0, "¤(choose_your_cpos)"@, "choose one of your field positions"@, 2);
    crate::text::lemma_replace_mismatch_at_start(s0, "¤(Pos_to_lane)"@, "Position's lane"@, 2);
    crate::text::lemma_replace_mismatch_at_start(s0, "¤(pos_to_lane)"@, "position's lane"@, 2);
    crate::text::lemma_replace_mismatch_at_start(s0, "¤(Move_me_to_r)"@, "Move this card to the chosen reserve"@, 2);
    assert(s0.subrange(0, "¤(move_me_to_r)"@.len() as int) =~= "¤(move_me_to_r)"@);
    crate::text::lemma_replace_at_start(s0, "¤(move_me_to_r)"@, "move this card to the chosen reserve"@);
    let s1 = "move this card to the chosen reserve"@ + seq![' '] + t;
    assert(s0.subrange("¤(move_me_to_r)"@.len() as int, s0.len() as int) =~= seq![' '] + t);
    assert("move this card to the chosen reserve"@ + (seq![' '] + t) =~= s1);
    crate::text::lemma_no_mark_joined("move this card to the chosen reserve"@, t);
    crate::text::lemma_replace_absent(s1, "¤(Attach_me_to_chosen)"@, "Attach this card to the chosen card"@);
    crate::text::lemma_replace_absent(s1, "¤(attach_me_to_chosen)"@, "attach this card to the chosen card"@);
    crate::text::lemma_replace_absent(s1, "¤(Xp)"@, "XP"@);
    crate::text::lemma_replace_absent(s1, "¤(xp)"@, "XP"@);
    crate::text::lemma_replace_absent(s1, "¤(Mana)"@, "Mana"@);
    crate::text::lemma_replace_absent(s1, "¤(mana)"@, "mana"@);
    crate::text::lemma_replace_absent(s1, "¤(Me)"@, "This card"@);
    crate::text::lemma_replace_absent(s1, "¤(me)"@, "this card"@);
    crate::text::lemma_replace_absent(s1, "¤(I)"@, "This card"@);
    crate::text::lemma_replace_absent(s1, "¤(I am)"@, "This card is"@);
    crate::text::lemma_replace_absent(s1, "¤(i)"@, "this card"@);
    crate::text::lemma_replace_absent(s1, "¤(i am)"@, "this card is"@);
    crate::text::lemma_replace_absent(s1, "¤(my)"@, "this card's"@);
    crate::text::lemma_replace_absent(s1, "¤(My)"@, "This card's"@);
    crate::text::lemma_replace_absent(s1, "¤(Set_my_pos_to_chosen)"@, "Move this card to the chosen position"@);
    crate::text::lemma_replace_absent(s1, "¤(set_my_pos_to_chosen)"@, "move this card to the chosen position"@);
}

/// `¤(Attach_me_to_chosen)`, then a space and a text without `¤`: the command becomes `Attach this card to the chosen card`.
proof fn lemma_bracket_command_24(t: Seq<char>)
    requires
        !t.contains('\u{a4}'),
    ensures
        replace_fixed_bracket("¤(Attach_me_to_chosen)"@ + seq![' '] + t) == "Attach this card to the chosen card"@ + seq![' '] + t,
{
    reveal_strlit("Any Phase");
    reveal_strlit("Attach this card to the chosen card");
    reveal_strlit("Boost");
    reveal_strlit("Card's lane");
    reveal_strlit("Choose a card you control");
    reveal_strlit("Choose a position on your board");
    reveal_strlit("Choose one of your field positions");
    reveal_strlit("Choose one of your reserves");
    reveal_strlit("Combat Only");
    reveal_strlit("Flip");
    reveal_strlit("Hand Only");
    reveal_strlit("Instant");
    reveal_strlit("Mana");
    reveal_strlit("Move this card to the chosen position");
    reveal_strlit("Move this card to the chosen reserve");
    reveal_strlit("Passing");
    reveal_strlit("Position's lane");
    reveal_strlit("Quick");
    reveal_strlit("This card");
    reveal_strlit("This card has");
    reveal_strlit("This card is");
    reveal_strlit("This card's");
    reveal_strlit("XP");
    reveal_strlit("attach this card to the chosen card");
    reveal_strlit("boost");
    reveal_strlit("card's lane");
    reveal_strlit("choose a card you control");
    reveal_strlit("choose a position on your board");
    reveal_strlit("choose one of your field positions");
    reveal_strlit("choose one of your reserves");
    reveal_strlit("mana");
    reveal_strlit("move this card to the chosen position");
    reveal_strlit("move this card to the chosen reserve");
    reveal_strlit("position's lane");
    reveal_strlit("this card");
    reveal_strlit("this card has");
    reveal_strlit("this card is");
    reveal_strlit("this card's");
    reveal_strlit("¤(Attach_me_to_chosen)");
    reveal_strlit("¤(Boost)");
    reveal_strlit("¤(C_to_lane)");
    reveal_strlit("¤(Choose_your_c)");
    reveal_strlit("¤(Choose_your_cpos)");
    reveal_strlit("¤(Choose_your_pos)");
    reveal_strlit("¤(Choose_your_r)");
    reveal_strlit("¤(I am)");
    reveal_strlit("¤(I have)");
    reveal_strlit("¤(I)");
    reveal_strlit("¤(Mana)");
    reveal_strlit("¤(Me)");
    reveal_strlit("¤(Move_me_to_r)");
    reveal_strlit("¤(My)");
    reveal_strlit("¤(Pos_to_lane)");
    reveal_strlit("¤(Set_my_pos_to_chosen)");
    reveal_strlit("¤(Xp)");
    reveal_strlit("¤(any_phase)");
    reveal_strlit("¤(attach_me_to_chosen)");
    reveal_strlit("¤(c_to_lane)");
    reveal_strlit("¤(choose_your_c)");
    reveal_strlit("¤(choose_your_cpos)");
    reveal_strlit("¤(choose_your_pos)");
    reveal_strlit("¤(choose_your_r)");
    reveal_strlit("¤(co)");
    reveal_strlit("¤(flip)");
    reveal_strlit("¤(ho)");
    reveal_strlit("¤(i am)");
    reveal_strlit("¤(i have)");
    reveal_strlit("¤(i)");
    reveal_strlit("¤(instant)");
    reveal_strlit("¤(mana)");
    reveal_strlit("¤(me)");
    reveal_strlit("¤(move_me_to_r)");
    reveal_strlit("¤(my)");
    reveal_strlit("¤(passing)");
    reveal_strlit("¤(pos_to_lane)");
    reveal_strlit("¤(quick)");
    reveal_strlit("¤(set_my_pos_to_chosen)");
    reveal_strlit("¤(xp)");
    let s0 = "¤(Attach_me_to_chosen)"@ + seq![' '] + t;
    crate::text::lemma_mark_only_at_start("¤(Attach_me_to_chosen)"@, t);
    crate::text::lemma_replace_mismatch_at_start(s0, "¤(ho)"@, "Hand Only"@, 2);
    crate::text::lemma_replace_mismatch_at_start(s0, "¤(co)"@, "Combat Only"@, 2);
    crate::text::lemma_replace_mismatch_at_start(s0, "¤(any_phase)"@, "Any Phase"@, 2);
    crate::text::lemma_replace_mismatch_at_start(s0, "¤(flip)"@, "Flip"@, 2);
    crate::text::lemma_replace_mismatch_at_start(s0, "¤(quick)"@, "Quick"@, 2);
    crate::text::lemma_replace_mismatch_at_start(s0, "¤(instant)"@, "Instant"@, 2);
    crate::text::lemma_replace_mismatch_at_start(s0, "¤(passing)"@, "Passing"@, 2);
    crate::text::lemma_replace_mismatch_at_start(s0, "¤(Choose_your_c)"@, "Choose a card you control"@, 2);
    crate::text::lemma_replace_mismatch_at_start(s0, "¤(choose_your_c)"@, "choose a card you control"@, 2);
    crate::text::lemma_replace_mismatch_at_start(s0, "¤(Boost)"@, "Boost"@, 2);
    crate::text::lemma_replace_mismatch_at_start(s0, "¤(Boost)"@, "boost"@, 2);
    crate::text::lemma_replace_mismatch_at_start(s0, "¤(I have)"@, "This card has"@, 2);
    crate::text::lemma_replace_mismatch_at_start(s0, "¤(i have)"@, "this card has"@, 2);
    crate::text::lemma_replace_mismatch_at_start(s0, "¤(C_to_lane)"@, "Card's lane"@, 2);
    crate::text::lemma_replace_mismatch_at_start(s0, "¤(c_to_lane)"@, "card's lane"@, 2);
    crate::text::lemma_replace_mismatch_at_start(s0, "¤(Choose_your_pos)"@, "Choose a position on your board"@, 2);
    crate::text::lemma_replace_mismatch_at_start(s0, "¤(choose_your_pos)"@, "choose a position on your board"@, 2);
    crate::text::lemma_replace_mismatch_at_start(s0, "¤(Choose_your_r)"@, "Choose one of your reserves"@, 2);
    crate::text::lemma_replace_mismatch_at_start(s0, "¤(choose_your_r)"@, "choose one of your reserves"@, 2);
    crate::text::lemma_replace_mismatch_at_start(s0, "¤(Choose_your_cpos)"@, "Choose one of your field positions"@, 2);
    crate::text::lemma_replace_mismatch_at_start(s0, "¤(choose_your_cpos)"@, "choose one of your field positions"@, 2);
    crate::text::lemma_replace_mismatch_at_start(s0, "¤(Pos_to_lane)"@, "Position's lane"@, 2);
    crate::text::lemma_replace_mismatch_at_start(s0, "¤(pos_to_lane)"@, "position's lane"@, 2);
    crate::text::lemma_replace_mismatch_at_start(s0, "¤(Move_me_to_r)"@, "Move this card to the chosen reserve"@, 2);
    crate::text::lemma_replace_mismatch_at_start(s0, "¤(move_me_to_r)"@, "move this card to the chosen reserve"@, 2);
    assert(s0.subrange(0, "¤(Attach_me_to_chosen)"@.len() as int) =~= "¤(Attach_me_to_chosen)"@);
    crate::text::lemma_replace_at_start(s0, "¤(Attach_me_to_chosen)"@, "Attach this card to the chosen card"@);
    let s1 = "Attach this card to the chosen card"@ + seq![' '] + t;
    assert(s0.subrange("¤(Attach_me_to_chosen)"@.len() as int, s0.len() as int) =~= seq![' '] + t);
    assert("Attach this card to the chosen card"@ + (seq![' '] + t) =~= s1);
    crate::text::lemma_no_mark_joined("Attach this card to the chosen card"@, t);
    crate::text::lemma_replace_absent(s1, "¤(attach_me_to_chosen)"@, "attach this card to the chosen card"@);
    crate::text::lemma_replace_absent(s1, "¤(Xp)"@, "XP"@);
    crate::text::lemma_replace_absent(s1, "¤(xp)"@, "XP"@);
    crate::text::lemma_replace_absent(s1, "¤(Mana)"@, "Mana"@);
    crate::text::lemma_replace_absent(s1, "¤(mana)"@, "mana"@);
    crate::text::lemma_replace_absent(s1, "¤(Me)"@, "This card"@);
    crate::text::lemma_replace_absent(s1, "¤(me)"@, "this card"@);
    crate::text::lemma_replace_absent(s1, "¤(I)"@, "This card"@);
    crate::text::lemma_replace_absent(s1, "¤(I am)"@, "This card is"@);
    crate::text::lemma_replace_absent(s1, "¤(i)"@, "this card"@);
    crate::text::lemma_replace_absent(s1, "¤(i am)"@, "this card is"@);
    crate::text::lemma_replace_absent(s1, "¤(my)"@, "this card's"@);
    crate::text::lemma_replace_absent(s1, "¤(My)"@, "This card's"@);
    crate::text::lemma_replace_absent(s1, "¤(Set_my_pos_to_chosen)"@, "Move this card to the chosen position"@);
    crate::text::lemma_replace_absent(s1, "¤(set_my_pos_to_chosen)"@, "move this card to the chosen position"@);
}

/// `¤(attach_me_to_chosen)`, then a space and a text without `¤`: the command becomes `attach this card to the chosen card`.
proof fn lemma_bracket_command_25(t: Seq<char>)
    requires
        !t.contains('\u{a4}'),
    ensures
        replace_fixed_bracket("¤(attach_me_to_chosen)"@ + seq![' '] + t) == "attach this card to the chosen card"@ + seq![' '] + t,
{
    reveal_strlit("Any Phase");
    reveal_strlit("Attach this card to the chosen card");
    reveal_strlit("Boost");
    reveal_strlit("Card's lane");
    reveal_strlit("Choose a card you control");
    reveal_strlit("Choose a position on your board");
    reveal_strlit("Choose one of your field positions");
    reveal_strlit("Choose one of your reserves");
    reveal_strlit("Combat Only");
    reveal_strlit("Flip");
    reveal_strlit("Hand Only");
    reveal_strlit("Instant");
    reveal_strlit("Mana");
    reveal_strlit("Move this card to the chosen position");
    reveal_strlit("Move this card to the chosen reserve");
    reveal_strlit("Passing");
    reveal_strlit("Position's lane");
    reveal_strlit("Quick");
    reveal_strlit("This card");
    reveal_strlit("This card has");
    reveal_strlit("This card is");
    reveal_strlit("This card's");
    reveal_strlit("XP");
    reveal_strlit("attach this card to the chosen card");
    reveal_strlit("boost");
    reveal_strlit("card's lane");
    reveal_strlit("choose a card you control");
    reveal_strlit("choose a position on your board");
    reveal_strlit("choose one of your field positions");
    reveal_strlit("choose one of your reserves");
    reveal_strlit("mana");
    reveal_strlit("move this card to the chosen position");
    reveal_strlit("move this card to the chosen reserve");
    reveal_strlit("position's lane");
    reveal_strlit("this card");
    reveal_strlit("this card has");
    reveal_strlit("this card is");
    reveal_strlit("this card's");
    reveal_strlit("¤(Attach_me_to_chosen)");
    reveal_strlit("¤(Boost)");
    reveal_strlit("¤(C_to_lane)");
    reveal_strlit("¤(Choose_your_c)");
    reveal_strlit("¤(Choose_your_cpos)");
    reveal_strlit("¤(Choose_your_pos)");
    reveal_strlit("¤(Choose_your_r)");
    reveal_strlit("¤(I am)");
    reveal_strlit("¤(I have)");
    reveal_strlit("¤(I)");
    reveal_strlit("¤(Mana)");
    reveal_strlit("¤(Me)");
    reveal_strlit("¤(Move_me_to_r)");
    reveal_strlit("¤(My)");
    reveal_strlit("¤(Pos_to_lane)");
    reveal_strlit("¤(Set_my_pos_to_chosen)");
    reveal_strlit("¤(Xp)");
    reveal_strlit("¤(any_phase)");
    reveal_strlit("¤(attach_me_to_chosen)");
    reveal_strlit("¤(c_to_lane)");
    reveal_strlit("¤(choose_your_c)");
    reveal_strlit("¤(choose_your_cpos)");
    reveal_strlit("¤(choose_your_pos)");
    reveal_strlit("¤(choose_your_r)");
    reveal_strlit("¤(co)");
    reveal_strlit("¤(flip)");
    reveal_strlit("¤(ho)");
    reveal_strlit("¤(i am)");
    reveal_strlit("¤(i have)");
    reveal_strlit("¤(i)");
    reveal_strlit("¤(instant)");
    reveal_strlit("¤(mana)");
    reveal_strlit("¤(me)");
    reveal_strlit("¤(move_me_to_r)");
    reveal_strlit("¤(my)");
    reveal_strlit("¤(passing)");
    reveal_strlit("¤(pos_to_lane)");
    reveal_strlit("¤(quick)");
    reveal_strlit("¤(set_my_pos_to_chosen)");
    reveal_strlit("¤(xp)");
    let s0 = "¤(attach_me_to_chosen)"@ + seq![' '] + t;
    crate::text::lemma_mark_only_at_start("¤(attach_me_to_chosen)"@, t);
    crate::text::lemma_replace_mismatch_at_start(s0, "¤(ho)"@, "Hand Only"@, 2);
    crate::text::lemma_replace_mismatch_at_start(s0, "¤(co)"@, "Combat Only"@, 2);
    crate::text::lemma_replace_mismatch_at_start(s0, "¤(any_phase)"@, "Any Phase"@, 3);
    crate::text::lemma_replace_mismatch_at_start(s0, "¤(flip)"@, "Flip"@, 2);
    crate::text::lemma_replace_mismatch_at_start(s0, "¤(quick)"@, "Quick"@, 2);
    crate::text::lemma_replace_mismatch_at_start(s0, "¤(instant)"@, "Instant"@, 2);
    crate::text::lemma_replace_mismatch_at_start(s0, "¤(passing)"@, "Passing"@, 2);
    crate::text::lemma_replace_mismatch_at_start(s0, "¤(Choose_your_c)"@, "Choose a card you control"@, 2);
    crate::text::lemma_replace_mismatch_at_start(s0, "¤(choose_your_c)"@, "choose a card you control"@, 2);
    crate::text::lemma_replace_mismatch_at_start(s0, "¤(Boost)"@, "Boost"@, 2);
    crate::text::lemma_replace_mismatch_at_start(s0, "¤(Boost)"@, "boost"@, 2);
    crate::text::lemma_replace_mismatch_at_start(s0, "¤(I have)"@, "This card has"@, 2);
    crate::text::lemma_replace_mismatch_at_start(s0, "¤(i have)"@, "this card has"@, 2);
    crate::text::lemma_replace_mismatch_at_start(s0, "¤(C_to_lane)"@, "Card's lane"@, 2);
    crate::text::lemma_replace_mismatch_at_start(s0, "¤(c_to_lane)"@, "card's lane"@, 2);
    crate::text::lemma_replace_mismatch_at_start(s0, "¤(Choose_your_pos)"@, "Choose a position on your board"@, 2);
    crate::text::lemma_replace_mismatch_at_start(s0, "¤(choose_your_pos)"@, "choose a position on your board"@, 2);
    crate::text::lemma_replace_mismatch_at_start(s0, "¤(Choose_your_r)"@, "Choose one of your reserves"@, 2);
    crate::text::lemma_replace_mismatch_at_start(s0, "¤(choose_your_r)"@, "choose one of your reserves"@, 2);
    crate::text::lemma_replace_mismatch_at_start(s0, "¤(Choose_your_cpos)"@, "Choose one of your field positions"@, 2);
    crate::text::lemma_replace_mismatch_at_start(s0, "¤(choose_your_cpos)"@, "choose one of your field positions"@, 2);
    crate::text::lemma_replace_mismatch_at_start(s0, "¤(Pos_to_lane)"@, "Position's lane"@, 2);
    crate::text::lemma_replace_mismatch_at_start(s0, "¤(pos_to_lane)"@, "position's lane"@, 2);
    crate::text::lemma_replace_mismatch_at_start(s0, "¤(Move_me_to_r)"@, "Move this card to the chosen reserve"@, 2);
    crate::text::lemma_replace_mismatch_at_start(s0, "¤(move_me_to_r)"@, "move this card to the chosen reserve"@, 2);
    crate::text::lemma_replace_mismatch_at_start(s0, "¤(Attach_me_to_chosen)"@, "Attach this card to the chosen card"@, 2);
    assert(s0.subrange(0, "¤(attach_me_to_chosen)"@.len() as int) =~= "¤(attach_me_to_chosen)"@);
    crate::text::lemma_replace_at_start(s0, "¤(attach_me_to_chosen)"@, "attach this card to the chosen card"@);
    let s1 = "attach this card to the chosen card"@ + seq![' '] + t;
    assert(s0.subrange("¤(attach_me_to_chosen)"@.len() as int, s0.len() as int) =~= seq![' '] + t);
    assert("attach this card to the chosen card"@ + (seq![' '] + t) =~= s1);
    crate::text::lemma_no_mark_joined("attach this card to the chosen card"@, t);
    crate::text::lemma_replace_absent(s1, "¤(Xp)"@, "XP"@);
    crate::text::lemma_replace_absent(s1, "¤(xp)"@, "XP"@);
    crate::text::lemma_replace_absent(s1, "¤(Mana)"@, "Mana"@);
    crate::text::lemma_replace_absent(s1, "¤(mana)"@, "mana"@);
    crate::text::lemma_replace_absent(s1, "¤(Me)"@, "This card"@);
    crate::text::lemma_replace_absent(s1, "¤(me)"@, "this card"@);
    crate::text::lemma_replace_absent(s1, "¤(I)"@, "This card"@);
    crate::text::lemma_replace_absent(s1, "¤(I am)"@, "This card is"@);
    crate::text::lemma_replace_absent(s1, "¤(i)"@, "this card"@);
    crate::text::lemma_replace_absent(s1, "¤(i am)"@, "this card is"@);
    crate::text::lemma_replace_absent(s1, "¤(my)"@, "this card's"@);
    crate::text::lemma_replace_absent(s1, "¤(My)"@, "This card's"@);
    crate::text::lemma_replace_absent(s1, "¤(Set_my_pos_to_chosen)"@, "Move this card to the chosen position"@);
    crate::text::lemma_replace_absent(s1, "¤(set_my_pos_to_chosen)"@, "move this card to the chosen position"@);
}

/// `¤(Xp)`, then a space and a text without `¤`: the command becomes `XP`.
proof fn lemma_bracket_command_26(t: Seq<char>)
    requires
        !t.contains('\u{a4}'),
    ensures
        replace_fixed_bracket("¤(Xp)"@ + seq![' '] + t) == "XP"@ + seq![' '] + t,
{
    reveal_strlit("Any Phase");
    reveal_strlit("Attach this card to the chosen card");
    reveal_strlit("Boost");
    reveal_strlit("Card's lane");
    reveal_strlit("Choose a card you control");
    reveal_strlit("Choose a position on your board");
    reveal_strlit("Choose one of your field positions");
    reveal_strlit("Choose one of your reserves");
    reveal_strlit("Combat Only");
    reveal_strlit("Flip");
    reveal_strlit("Hand Only");
    reveal_strlit("Instant");
    reveal_strlit("Mana");
    reveal_strlit("Move this card to the chosen position");
    reveal_strlit("Move this card to the chosen reserve");
    reveal_strlit("Passing");
    reveal_strlit("Position's lane");
    reveal_strlit("Quick");
    reveal_strlit("This card");
    reveal_strlit("This card has");
    reveal_strlit("This card is");
    reveal_strlit("This card's");
    reveal_strlit("XP");
    reveal_strlit("attach this card to the chosen card");
    reveal_strlit("boost");
    reveal_strlit("card's lane");
    reveal_strlit("choose a card you control");
    reveal_strlit("choose a position on your board");
    reveal_strlit("choose one of your field positions");
    reveal_strlit("choose one of your reserves");
    reveal_strlit("mana");
    reveal_strlit("move this card to the chosen position");
    reveal_strlit("move this card to the chosen reserve");
    reveal_strlit("position's lane");
    reveal_strlit("this card");
    reveal_strlit("this card has");
    reveal_strlit("this card is");
    reveal_strlit("this card's");
    reveal_strlit("¤(Attach_me_to_chosen)");
    reveal_strlit("¤(Boost)");
    reveal_strlit("¤(C_to_lane)");
    reveal_strlit("¤(Choose_your_c)");
    reveal_strlit("¤(Choose_your_cpos)");
    reveal_strlit("¤(Choose_your_pos)");
    reveal_strlit("¤(Choose_your_r)");
    reveal_strlit("¤(I am)");
    reveal_strlit("¤(I have)");
    reveal_strlit("¤(I)");
    reveal_strlit("¤(Mana)");
    reveal_strlit("¤(Me)");
    reveal_strlit("¤(Move_me_to_r)");
    reveal_strlit("¤(My)");
    reveal_strlit("¤(Pos_to_lane)");
    reveal_strlit("¤(Set_my_pos_to_chosen)");
    reveal_strlit("¤(Xp)");
    reveal_strlit("¤(any_phase)");
    reveal_strlit("¤(attach_me_to_chosen)");
    reveal_strlit("¤(c_to_lane)");
    reveal_strlit("¤(choose_your_c)");
    reveal_strlit("¤(choose_your_cpos)");
    reveal_strlit("¤(choose_your_pos)");
    reveal_strlit("¤(choose_your_r)");
    reveal_strlit("¤(co)");
    reveal_strlit("¤(flip)");
    reveal_strlit("¤(ho)");
    reveal_strlit("¤(i am)");
    reveal_strlit("¤(i have)");
    reveal_strlit("¤(i)");
    reveal_strlit("¤(instant)");
    reveal_strlit("¤(mana)");
    reveal_strlit("¤(me)");
    reveal_strlit("¤(move_me_to_r)");
    reveal_strlit("¤(my)");
    reveal_strlit("¤(passing)");
    reveal_strlit("¤(pos_to_lane)");
    reveal_strlit("¤(quick)");
    reveal_strlit("¤(set_my_pos_to_chosen)");
    reveal_strlit("¤(xp)");
    let s0 = "¤(Xp)"@ + seq![' '] + t;
    crate::text::lemma_mark_only_at_start("¤(Xp)"@, t);
    crate::text::lemma_replace_mismatch_at_start(s0, "¤(ho)"@, "Hand Only"@, 2);
    crate::text::lemma_replace_mismatch_at_start(s0, "¤(co)"@, "Combat Only"@, 2);
    crate::text::lemma_replace_mismatch_at_start(s0, "¤(any_phase)"@, "Any Phase"@, 2);
    crate::text::lemma_replace_mismatch_at_start(s0, "¤(flip)"@, "Flip"@, 2);
    crate::text::lemma_replace_mismatch_at_start(s0, "¤(quick)"@, "Quick"@, 2);
    crate::text::lemma_replace_mismatch_at_start(s0, "¤(instant)"@, "Instant"@, 2);
    crate::text::lemma_replace_mismatch_at_start(s0, "¤(passing)"@, "Passing"@, 2);
    crate::text::lemma_replace_mismatch_at_start(s0, "¤(Choose_your_c)"@, "Choose a card you control"@, 2);
    crate::text::lemma_replace_mismatch_at_start(s0, "¤(choose_your_c)"@, "choose a card you control"@, 2);
    crate::text::lemma_replace_mismatch_at_start(s0, "¤(Boost)"@, "Boost"@, 2);
    crate::text::lemma_replace_mismatch_at_start(s0, "¤(Boost)"@, "boost"@, 2);
    crate::text::lemma_replace_mismatch_at_start(s0, "¤(I have)"@, "This card has"@, 2);
    crate::text::lemma_replace_mismatch_at_start(s0, "¤(i have)"@, "this card has"@, 2);
    crate::text::lemma_replace_mismatch_at_start(s0, "¤(C_to_lane)"@, "Card's lane"@, 2);
    crate::text::lemma_replace_mismatch_at_start(s0, "¤(c_to_lane)"@, "card's lane"@, 2);
    crate::text::lemma_replace_mismatch_at_start(s0, "¤(Choose_your_pos)"@, "Choose a position on your board"@, 2);
    crate::text::lemma_replace_mismatch_at_start(s0, "¤(choose_your_pos)"@, "choose a position on your board"@, 2);
    crate::text::lemma_replace_mismatch_at_start(s0, "¤(Choose_your_r)"@, "Choose one of your reserves"@, 2);
    crate::text::lemma_replace_mismatch_at_start(s0, "¤(choose_your_r)"@, "choose one of your reserves"@, 2);
    crate::text::lemma_replace_mismatch_at_start(s0, "¤(Choose_your_cpos)"@, "Choose one of your field positions"@, 2);
    crate::text::lemma_replace_mismatch_at_start(s0, "¤(choose_your_cpos)"@, "choose one of your field positions"@, 2);
    crate::text::lemma_replace_mismatch_at_start(s0, "¤(Pos_to_lane)"@, "Position's lane"@, 2);
    crate::text::lemma_replace_mismatch_at_start(s0, "¤(pos_to_lane)"@, "position's lane"@, 2);
    crate::text::lemma_replace_mismatch_at_start(s0, "¤(Move_me_to_r)"@, "Move this card to the chosen reserve"@, 2);
    crate::text::lemma_replace_mismatch_at_start(s0, "¤(move_me_to_r)"@, "move this card to the chosen reserve"@, 2);
    crate::text::lemma_replace_mismatch_at_start(s0, "¤(Attach_me_to_chosen)"@, "Attach this card to the chosen card"@, 2);
    crate::text::lemma_replace_mismatch_at_start(s0, "¤(attach_me_to_chosen)"@, "attach this card to the chosen card"@, 2);
    assert(s0.subrange(0, "¤(Xp)"@.len() as int) =~= "¤(Xp)"@);
    crate::text::lemma_replace_at_start(s0, "¤(Xp)"@, "XP"@);
    let s1 = "XP"@ + seq![' '] + t;
    assert(s0.subrange("¤(Xp)"@.len() as int, s0.len() as int) =~= seq![' '] + t);
    assert("XP"@ + (seq![' '] + t) =~= s1);
    crate::text::lemma_no_mark_joined("XP"@, t);
    crate::text::lemma_replace_absent(s1, "¤(xp)"@, "XP"@);
    crate::text::lemma_replace_absent(s1, "¤(Mana)"@, "Mana"@);
    crate::text::lemma_replace_absent(s1, "¤(mana)"@, "mana"@);
    crate::text::lemma_replace_absent(s1, "¤(Me)"@, "This card"@);
    crate::text::lemma_replace_absent(s1, "¤(me)"@, "this card"@);
    crate::text::lemma_replace_absent(s1, "¤(I)"@, "This card"@);
    crate::text::lemma_replace_absent(s1, "¤(I am)"@, "This card is"@);
    crate::text::lemma_replace_absent(s1, "¤(i)"@, "this card"@);
    crate::text::lemma_replace_absent(s1, "¤(i am)"@, "this card is"@);
    crate::text::lemma_replace_absent(s1, "¤(my)"@, "this card's"@);
    crate::text::lemma_replace_absent(s1, "¤(My)"@, "This card's"@);
    crate::text::lemma_replace_absent(s1, "¤(Set_my_pos_to_chosen)"@, "Move this card to the chosen position"@);
    crate::text::lemma_replace_absent(s1, "¤(set_my_pos_to_chosen)"@, "move this card to the chosen position"@);
}

/// `¤(xp)`, then a space and a text without `¤`: the command becomes `XP`.
proof fn lemma_bracket_command_27(t: Seq<char>)
    requires
        !t.contains('\u{a4}'),
    ensures
        replace_fixed_bracket("¤(xp)"@ + seq![' '] + t) == "XP"@ + seq![' '] + t,
{
    reveal_strlit("Any Phase");
    reveal_strlit("Attach this card to the chosen card");
    reveal_strlit("Boost");
    reveal_strlit("Card's lane");
    reveal_strlit("Choose a card you control");
    reveal_strlit("Choose a position on your board");
    reveal_strlit("Choose one of your field positions");
    reveal_strlit("Choose one of your reserves");
    reveal_strlit("Combat Only");
    reveal_strlit("Flip");
    reveal_strlit("Hand Only");
    reveal_strlit("Instant");
    reveal_strlit("Mana");
    reveal_strlit("Move this card to the chosen position");
    reveal_strlit("Move this card to the chosen reserve");
    reveal_strlit("Passing");
    reveal_strlit("Position's lane");
    reveal_strlit("Quick");
    reveal_strlit("This card");
    reveal_strlit("This card has");
    reveal_strlit("This card is");
    reveal_strlit("This card's");
    reveal_strlit("XP");
    reveal_strlit("attach this card to the chosen card");
    reveal_strlit("boost");
    reveal_strlit("card's lane");
    reveal_strlit("choose a card you control");
    reveal_strlit("choose a position on your board");
    reveal_strlit("choose one of your field positions");
    reveal_strlit("choose one of your reserves");
    reveal_strlit("mana");
    reveal_strlit("move this card to the chosen position");
    reveal_strlit("move this card to the chosen reserve");
    reveal_strlit("position's lane");
    reveal_strlit("this card");
    reveal_strlit("this card has");
    reveal_strlit("this card is");
    reveal_strlit("this card's");
    reveal_strlit("¤(Attach_me_to_chosen)");
    reveal_strlit("¤(Boost)");
    reveal_strlit("¤(C_to_lane)");
    reveal_strlit("¤(Choose_your_c)");
    reveal_strlit("¤(Choose_your_cpos)");
    reveal_strlit("¤(Choose_your_pos)");
    reveal_strlit("¤(Choose_your_r)");
    reveal_strlit("¤(I am)");
    reveal_strlit("¤(I have)");
    reveal_strlit("¤(I)");
    reveal_strlit("¤(Mana)");
    reveal_strlit("¤(Me)");
    reveal_strlit("¤(Move_me_to_r)");
    reveal_strlit("¤(My)");
    reveal_strlit("¤(Pos_to_lane)");
    reveal_strlit("¤(Set_my_pos_to_chosen)");
    reveal_strlit("¤(Xp)");
    reveal_strlit("¤(any_phase)");
    reveal_strlit("¤(attach_me_to_chosen)");
    reveal_strlit("¤(c_to_lane)");
    reveal_strlit("¤(choose_your_c)");
    reveal_strlit("¤(choose_your_cpos)");
    reveal_strlit("¤(choose_your_pos)");
    reveal_strlit("¤(choose_your_r)");
    reveal_strlit("¤(co)");
    reveal_strlit("¤(flip)");
    reveal_strlit("¤(ho)");
    reveal_strlit("¤(i am)");
    reveal_strlit("¤(i have)");
    reveal_strlit("¤(i)");
    reveal_strlit("¤(instant)");
    reveal_strlit("¤(mana)");
    reveal_strlit("¤(me)");
    reveal_strlit("¤(move_me_to_r)");
    reveal_strlit("¤(my)");
    reveal_strlit("¤(passing)");
    reveal_strlit("¤(pos_to_lane)");
    reveal_strlit("¤(quick)");
    reveal_strlit("¤(set_my_pos_to_chosen)");
    reveal_strlit("¤(xp)");
    let s0 = "¤(xp)"@ + seq![' '] + t;
    crate::text::lemma_mark_only_at_start("¤(xp)"@, t);
    crate::text::lemma_replace_mismatch_at_start(s0, "¤(ho)"@, "Hand Only"@, 2);
    crate::text::lemma_replace_mismatch_at_start(s0, "¤(co)"@, "Combat Only"@, 2);
    crate::text::lemma_replace_mismatch_at_start(s0, "¤(any_phase)"@, "Any Phase"@, 2);
    crate::text::lemma_replace_mismatch_at_start(s0, "¤(flip)"@, "Flip"@, 2);
    crate::text::lemma_replace_mismatch_at_start(s0, "¤(quick)"@, "Quick"@, 2);
    crate::text::lemma_replace_mismatch_at_start(s0, "¤(instant)"@, "Instant"@, 2);
    crate::text::lemma_replace_mismatch_at_start(s0, "¤(passing)"@, "Passing"@, 2);
    crate::text::lemma_replace_mismatch_at_start(s0, "¤(Choose_your_c)"@, "Choose a card you control"@, 2);
    crate::text::lemma_replace_mismatch_at_start(s0, "¤(choose_your_c)"@, "choose a card you control"@, 2);
    crate::text::lemma_replace_mismatch_at_start(s0, "¤(Boost)"@, "Boost"@, 2);
    crate::text::lemma_replace_mismatch_at_start(s0, "¤(Boost)"@, "boost"@, 2);
    crate::text::lemma_replace_mismatch_at_start(s0, "¤(I have)"@, "This card has"@, 2);
    crate::text::lemma_replace_mismatch_at_start(s0, "¤(i have)"@, "this card has"@, 2);
    crate::text::lemma_replace_mismatch_at_start(s0, "¤(C_to_lane)"@, "Card's lane"@, 2);
    crate::text::lemma_replace_mismatch_at_start(s0, "¤(c_to_lane)"@, "card's lane"@, 2);
    crate::text::lemma_replace_mismatch_at_start(s0, "¤(Choose_your_pos)"@, "Choose a position on your board"@, 2);
    crate::text::lemma_replace_mismatch_at_start(s0, "¤(choose_your_pos)"@, "choose a position on your board"@, 2);
    crate::text::lemma_replace_mismatch_at_start(s0, "¤(Choose_your_r)"@, "Choose one of your reserves"@, 2);
    crate::text::lemma_replace_mismatch_at_start(s0, "¤(choose_your_r)"@, "choose one of your reserves"@, 2);
    crate::text::lemma_replace_mismatch_at_start(s0, "¤(Choose_your_cpos)"@, "Choose one of your field positions"@, 2);
    crate::text::lemma_replace_mismatch_at_start(s0, "¤(choose_your_cpos)"@, "choose one of your field positions"@, 2);
    crate::text::lemma_replace_mismatch_at_start(s0, "¤(Pos_to_lane)"@, "Position's lane"@, 2);
    crate::text::lemma_replace_mismatch_at_start(s0, "¤(pos_to_lane)"@, "position's lane"@, 2);
    crate::text::lemma_replace_mismatch_at_start(s0, "¤(Move_me_to_r)"@, "Move this card to the chosen reserve"@, 2);
    crate::text::lemma_replace_mismatch_at_start(s0, "¤(move_me_to_r)"@, "move this card to the chosen reserve"@, 2);
    crate::text::lemma_replace_mismatch_at_start(s0, "¤(Attach_me_to_chosen)"@, "Attach this card to the chosen card"@, 2);
    crate::text::lemma_replace_mismatch_at_start(s0, "¤(attach_me_to_chosen)"@, "attach this card to the chosen card"@, 2);
    crate::text::lemma_replace_mismatch_at_start(s0, "¤(Xp)"@, "XP"@, 2);
    assert(s0.subrange(0, "¤(xp)"@.len() as int) =~= "¤(xp)"@);
    crate::text::lemma_replace_at_start(s0, "¤(xp)"@, "XP"@);
    let s1 = "XP"@ + seq![' '] + t;
    assert(s0.subrange("¤(xp)"@.len() as int, s0.len() as int) =~= seq![' '] + t);
    assert("XP"@ + (seq![' '] + t) =~= s1);
    crate::text::lemma_no_mark_joined("XP"@, t);
    crate::text::lemma_replace_absent(s1, "¤(Mana)"@, "Mana"@);
    crate::text::lemma_replace_absent(s1, "¤(mana)"@, "mana"@);
    crate::text::lemma_replace_absent(s1, "¤(Me)"@, "This card"@);
    crate::text::lemma_replace_absent(s1, "¤(me)"@, "this card"@);
    crate::text::lemma_replace_absent(s1, "¤(I)"@, "This card"@);
    crate::text::lemma_replace_absent(s1, "¤(I am)"@, "This card is"@);
    crate::text::lemma_replace_absent(s1, "¤(i)"@, "this card"@);
    crate::text::lemma_replace_absent(s1, "¤(i am)"@, "this card is"@);
    crate::text::lemma_replace_absent(s1, "¤(my)"@, "this card's"@);
    crate::text::lemma_replace_absent(s1, "¤(My)"@, "This card's"@);
    crate::text::lemma_replace_absent(s1, "¤(Set_my_pos_to_chosen)"@, "Move this card to the chosen position"@);
    crate::text::lemma_replace_absent(s1, "¤(set_my_pos_to_chosen)"@, "move this card to the chosen position"@);
}

/// `¤(Mana)`, then a space and a text without `¤`: the command becomes `Mana`.
proof fn lemma_bracket_command_28(t: Seq<char>)
    requires
        !t.contains('\u{a4}'),
    ensures
        replace_fixed_bracket("¤(Mana)"@ + seq![' '] + t) == "Mana"@ + seq![' '] + t,
{
    reveal_strlit("Any Phase");
    reveal_strlit("Attach this card to the chosen card");
    reveal_strlit("Boost");
    reveal_strlit("Card's lane");
    reveal_strlit("Choose a card you control");
    reveal_strlit("Choose a position on your board");
    reveal_strlit("Choose one of your field positions");
    reveal_strlit("Choose one of your reserves");
    reveal_strlit("Combat Only");
    reveal_strlit("Flip");
    reveal_strlit("Hand Only");
    reveal_strlit("Instant");
    reveal_strlit("Mana");
    reveal_strlit("Move this card to the chosen position");
    reveal_strlit("Move this card to the chosen reserve");
    reveal_strlit("Passing");
    reveal_strlit("Position's lane");
    reveal_strlit("Quick");
    reveal_strlit("This card");
    reveal_strlit("This card has");
    reveal_strlit("This card is");
    reveal_strlit("This card's");
    reveal_strlit("XP");
    reveal_strlit("attach this card to the chosen card");
    reveal_strlit("boost");
    reveal_strlit("card's lane");
    reveal_strlit("choose a card you control");
    reveal_strlit("choose a position on your board");
    reveal_strlit("choose one of your field positions");
    reveal_strlit("choose one of your reserves");
    reveal_strlit("mana");
    reveal_strlit("move this card to the chosen position");
    reveal_strlit("move this card to the chosen reserve");
    reveal_strlit("position's lane");
    reveal_strlit("this card");
    reveal_strlit("this card has");
    reveal_strlit("this card is");
    reveal_strlit("this card's");
    reveal_strlit("¤(Attach_me_to_chosen)");
    reveal_strlit("¤(Boost)");
    reveal_strlit("¤(C_to_lane)");
    reveal_strlit("¤(Choose_your_c)");
    reveal_strlit("¤(Choose_your_cpos)");
    reveal_strlit("¤(Choose_your_pos)");
    reveal_strlit("¤(Choose_your_r)");
    reveal_strlit("¤(I am)");
    reveal_strlit("¤(I have)");
    reveal_strlit("¤(I)");
    reveal_strlit("¤(Mana)");
    reveal_strlit("¤(Me)");
    reveal_strlit("¤(Move_me_to_r)");
    reveal_strlit("¤(My)");
    reveal_strlit("¤(Pos_to_lane)");
    reveal_strlit("¤(Set_my_pos_to_chosen)");
    reveal_strlit("¤(Xp)");
    reveal_strlit("¤(any_phase)");
    reveal_strlit("¤(attach_me_to_chosen)");
    reveal_strlit("¤(c_to_lane)");
    reveal_strlit("¤(choose_your_c)");
    reveal_strlit("¤(choose_your_cpos)");
    reveal_strlit("¤(choose_your_pos)");
    reveal_strlit("¤(choose_your_r)");
    reveal_strlit("¤(co)");
    reveal_strlit("¤(flip)");
    reveal_strlit("¤(ho)");
    reveal_strlit("¤(i am)");
    reveal_strlit("¤(i have)");
    reveal_strlit("¤(i)");
    reveal_strlit("¤(instant)");
    reveal_strlit("¤(mana)");
    reveal_strlit("¤(me)");
    reveal_strlit("¤(move_me_to_r)");
    reveal_strlit("¤(my)");
    reveal_strlit("¤(passing)");
    reveal_strlit("¤(pos_to_lane)");
    reveal_strlit("¤(quick)");
    reveal_strlit("¤(set_my_pos_to_chosen)");
    reveal_strlit("¤(xp)");
    let s0 = "¤(Mana)"@ + seq![' '] + t;
    crate::text::lemma_mark_only_at_start("¤(Mana)"@, t);
    crate::text::lemma_replace_mismatch_at_start(s0, "¤(ho)"@, "Hand Only"@, 2);
    crate::text::lemma_replace_mismatch_at_start(s0, "¤(co)"@, "Combat Only"@, 2);
    crate::text::lemma_replace_mismatch_at_start(s0, "¤(any_phase)"@, "Any Phase"@, 2);
    crate::text::lemma_replace_mismatch_at_start(s0, "¤(flip)"@, "Flip"@, 2);
    crate::text::lemma_replace_mismatch_at_start(s0, "¤(quick)"@, "Quick"@, 2);
    crate::text::lemma_replace_mismatch_at_start(s0, "¤(instant)"@, "Instant"@, 2);
    crate::text::lemma_replace_mismatch_at_start(s0, "¤(passing)"@, "Passing"@, 2);
    crate::text::lemma_replace_mismatch_at_start(s0, "¤(Choose_your_c)"@, "Choose a card you control"@, 2);
    crate::text::lemma_replace_mismatch_at_start(s0, "¤(choose_your_c)"@, "choose a card you control"@, 2);
    crate::text::lemma_replace_mismatch_at_start(s0, "¤(Boost)"@, "Boost"@, 2);
    crate::text::lemma_replace_mismatch_at_start(s0, "¤(Boost)"@, "boost"@, 2);
    crate::text::lemma_replace_mismatch_at_start(s0, "¤(I have)"@, "This card has"@, 2);
    crate::text::lemma_replace_mismatch_at_start(s0, "¤(i have)"@, "this card has"@, 2);
    crate::text::lemma_replace_mismatch_at_start(s0, "¤(C_to_lane)"@, "Card's lane"@, 2);
    crate::text::lemma_replace_mismatch_at_start(s0, "¤(c_to_lane)"@, "card's lane"@, 2);
    crate::text::lemma_replace_mismatch_at_start(s0, "¤(Choose_your_pos)"@, "Choose a position on your board"@, 2);
    crate::text::lemma_replace_mismatch_at_start(s0, "¤(choose_your_pos)"@, "choose a position on your board"@, 2);
    crate::text::lemma_replace_mismatch_at_start(s0, "¤(Choose_your_r)"@, "Choose one of your reserves"@, 2);
    crate::text::lemma_replace_mismatch_at_start(s0, "¤(choose_your_r)"@, "choose one of your reserves"@, 2);
    crate::text::lemma_replace_mismatch_at_start(s0, "¤(Choose_your_cpos)"@, "Choose one of your field positions"@, 2);
    crate::text::lemma_replace_mismatch_at_start(s0, "¤(choose_your_cpos)"@, "choose one of your field positions"@, 2);
    crate::text::lemma_replace_mismatch_at_start(s0, "¤(Pos_to_lane)"@, "Position's lane"@, 2);
    crate::text::lemma_replace_mismatch_at_start(s0, "¤(pos_to_lane)"@, "position's lane"@, 2);
    crate::text::lemma_replace_mismatch_at_start(s0, "¤(Move_me_to_r)"@, "Move this card to the chosen reserve"@, 3);
    crate::text::lemma_replace_mismatch_at_start(s0, "¤(move_me_to_r)"@, "move this card to the chosen reserve"@, 2);
    crate::text::lemma_replace_mismatch_at_start(s0, "¤(Attach_me_to_chosen)"@, "Attach this card to the chosen card"@, 2);
    crate::text::lemma_replace_mismatch_at_start(s0, "¤(attach_me_to_chosen)"@, "attach this card to the chosen card"@, 2);
    crate::text::lemma_replace_mismatch_at_start(s0, "¤(Xp)"@, "XP"@, 2);
    crate::text::lemma_replace_mismatch_at_start(s0, "¤(xp)"@, "XP"@, 2);
    assert(s0.subrange(0, "¤(Mana)"@.len() as int) =~= "¤(Mana)"@);
    crate::text::lemma_replace_at_start(s0, "¤(Mana)"@, "Mana"@);
    let s1 = "Mana"@ + seq![' '] + t;
    assert(s0.subrange("¤(Mana)"@.len() as int, s0.len() as int) =~= seq![' '] + t);
    assert("Mana"@ + (seq![' '] + t) =~= s1);
    crate::text::lemma_no_mark_joined("Mana"@, t);
    crate::text::lemma_replace_absent(s1, "¤(mana)"@, "mana"@);
    crate::text::lemma_replace_absent(s1, "¤(Me)"@, "This card"@);
    crate::text::lemma_replace_absent(s1, "¤(me)"@, "this card"@);
    crate::text::lemma_replace_absent(s1, "¤(I)"@, "This card"@);
    crate::text::lemma_replace_absent(s1, "¤(I am)"@, "This card is"@);
    crate::text::lemma_replace_absent(s1, "¤(i)"@, "this card"@);
    crate::text::lemma_replace_absent(s1, "¤(i am)"@, "this card is"@);
    crate::text::lemma_replace_absent(s1, "¤(my)"@, "this card's"@);
    crate::text::lemma_replace_absent(s1, "¤(My)"@, "This card's"@);
    crate::text::lemma_replace_absent(s1, "¤(Set_my_pos_to_chosen)"@, "Move this card to the chosen position"@);
    crate::text::lemma_replace_absent(s1, "¤(set_my_pos_to_chosen)"@, "move this card to the chosen position"@);
}

/// `¤(mana)`, then a space and a text without `¤`: the command becomes `mana`.
proof fn lemma_bracket_command_29(t: Seq<char>)
    requires
        !t.contains('\u{a4}'),
    ensures
        replace_fixed_bracket("¤(mana)"@ + seq![' '] + t) == "mana"@ + seq![' '] + t,
{
    reveal_strlit("Any Phase");
    reveal_strlit("Attach this card to the chosen card");
    reveal_strlit("Boost");
    reveal_strlit("Card's lane");
    reveal_strlit("Choose a card you control");
    reveal_strlit("Choose a position on your board");
    reveal_strlit("Choose one of your field positions");
    reveal_strlit("Choose one of your reserves");
    reveal_strlit("Combat Only");
    reveal_strlit("Flip");
    reveal_strlit("Hand Only");
    reveal_strlit("Instant");
    reveal_strlit("Mana");
    reveal_strlit("Move this card to the chosen position");
    reveal_strlit("Move this card to the chosen reserve");
    reveal_strlit("Passing");
    reveal_strlit("Position's lane");
    reveal_strlit("Quick");
    reveal_strlit("This card");
    reveal_strlit("This card has");
    reveal_strlit("This card is");
    reveal_strlit("This card's");
    reveal_strlit("XP");
    reveal_strlit("attach this card to the chosen card");
    reveal_strlit("boost");
    reveal_strlit("card's lane");
    reveal_strlit("choose a card you control");
    reveal_strlit("choose a position on your board");
    reveal_strlit("choose one of your field positions");
    reveal_strlit("choose one of your reserves");
    reveal_strlit("mana");
    reveal_strlit("move this card to the chosen position");
    reveal_strlit("move this card to the chosen reserve");
    reveal_strlit("position's lane");
    reveal_strlit("this card");
    reveal_strlit("this card has");
    reveal_strlit("this card is");
    reveal_strlit("this card's");
    reveal_strlit("¤(Attach_me_to_chosen)");
    reveal_strlit("¤(Boost)");
    reveal_strlit("¤(C_to_lane)");
    reveal_strlit("¤(Choose_your_c)");
    reveal_strlit("¤(Choose_your_cpos)");
    reveal_strlit("¤(Choose_your_pos)");
    reveal_strlit("¤(Choose_your_r)");
    reveal_strlit("¤(I am)");
    reveal_strlit("¤(I have)");
    reveal_strlit("¤(I)");
    reveal_strlit("¤(Mana)");
    reveal_strlit("¤(Me)");
    reveal_strlit("¤(Move_me_to_r)");
    reveal_strlit("¤(My)");
    reveal_strlit("¤(Pos_to_lane)");
    reveal_strlit("¤(Set_my_pos_to_chosen)");
    reveal_strlit("¤(Xp)");
    reveal_strlit("¤(any_phase)");
    reveal_strlit("¤(attach_me_to_chosen)");
    reveal_strlit("¤(c_to_lane)");
    reveal_strlit("¤(choose_your_c)");
    reveal_strlit("¤(choose_your_cpos)");
    reveal_strlit("¤(choose_your_pos)");
    reveal_strlit("¤(choose_your_r)");
    reveal_strlit("¤(co)");
    reveal_strlit("¤(flip)");
    reveal_strlit("¤(ho)");
    reveal_strlit("¤(i am)");
    reveal_strlit("¤(i have)");
    reveal_strlit("¤(i)");
    reveal_strlit("¤(instant)");
    reveal_strlit("¤(mana)");
    reveal_strlit("¤(me)");
    reveal_strlit("¤(move_me_to_r)");
    reveal_strlit("¤(my)");
    reveal_strlit("¤(passing)");
    reveal_strlit("¤(pos_to_lane)");
    reveal_strlit("¤(quick)");
    reveal_strlit("¤(set_my_pos_to_chosen)");
    reveal_strlit("¤(xp)");
    let s0 = "¤(mana)"@ + seq![' '] + t;
    crate::text::lemma_mark_only_at_start("¤(mana)"@, t);
    crate::text::lemma_replace_mismatch_at_start(s0, "¤(ho)"@, "Hand Only"@, 2);
    crate::text::lemma_replace_mismatch_at_start(s0, "¤(co)"@, "Combat Only"@, 2);
    crate::text::lemma_replace_mismatch_at_start(s0, "¤(any_phase)"@, "Any Phase"@, 2);
    crate::text::lemma_replace_mismatch_at_start(s0, "¤(flip)"@, "Flip"@, 2);
    crate::text::lemma_replace_mismatch_at_start(s0, "¤(quick)"@, "Quick"@, 2);
    crate::text::lemma_replace_mismatch_at_start(s0, "¤(instant)"@, "Instant"@, 2);
    crate::text::lemma_replace_mismatch_at_start(s0, "¤(passing)"@, "Passing"@, 2);
    crate::text::lemma_replace_mismatch_at_start(s0, "¤(Choose_your_c)"@, "Choose a card you control"@, 2);
    crate::text::lemma_replace_mismatch_at_start(s0, "¤(choose_your_c)"@, "choose a card you control"@, 2);
    crate::text::lemma_replace_mismatch_at_start(s0, "¤(Boost)"@, "Boost"@, 2);
    crate::text::lemma_replace_mismatch_at_start(s0, "¤(Boost)"@, "boost"@, 2);
    crate::text::lemma_replace_mismatch_at_start(s0, "¤(I have)"@, "This card has"@, 2);
    crate::text::lemma_replace_mismatch_at_start(s0, "¤(i have)"@, "this card has"@, 2);
    crate::text::lemma_replace_mismatch_at_start(s0, "¤(C_to_lane)"@, "Card's lane"@, 2);
    crate::text::lemma_replace_mismatch_at_start(s0, "¤(c_to_lane)"@, "card's lane"@, 2);
    crate::text::lemma_replace_mismatch_at_start(s0, "¤(Choose_your_pos)"@, "Choose a position on your board"@, 2);
    crate::text::lemma_replace_mismatch_at_start(s0, "¤(choose_your_pos)"@, "choose a position on your board"@, 2);
    crate::text::lemma_replace_mismatch_at_start(s0, "¤(Choose_your_r)"@, "Choose one of your reserves"@, 2);
    crate::text::lemma_replace_mismatch_at_start(s0, "¤(choose_your_r)"@, "choose one of your reserves"@, 2);
    crate::text::lemma_replace_mismatch_at_start(s0, "¤(Choose_your_cpos)"@, "Choose one of your field positions"@, 2);
    crate::text::lemma_replace_mismatch_at_start(s0, "¤(choose_your_cpos)"@, "choose one of your field positions"@, 2);
    crate::text::lemma_replace_mismatch_at_start(s0, "¤(Pos_to_lane)"@, "Position's lane"@, 2);
    crate::text::lemma_replace_mismatch_at_start(s0, "¤(pos_to_lane)"@, "position's lane"@, 2);
    crate::text::lemma_replace_mismatch_at_start(s0, "¤(Move_me_to_r)"@, "Move this card to the chosen reserve"@, 2);
    crate::text::lemma_replace_mismatch_at_start(s0, "¤(move_me_to_r)"@, "move this card to the chosen reserve"@, 3);
    crate::text::lemma_replace_mismatch_at_start(s0, "¤(Attach_me_to_chosen)"@, "Attach this card to the chosen card"@, 2);
    crate::text::lemma_replace_mismatch_at_start(s0, "¤(attach_me_to_chosen)"@, "attach this card to the chosen card"@, 2);
    crate::text::lemma_replace_mismatch_at_start(s0, "¤(Xp)"@, "XP"@, 2);
    crate::text::lemma_replace_mismatch_at_start(s0, "¤(xp)"@, "XP"@, 2);
    crate::text::lemma_replace_mismatch_at_start(s0, "¤(Mana)"@, "Mana"@, 2);
    assert(s0.subrange(0, "¤(mana)"@.len() as int) =~= "¤(mana)"@);
    crate::text::lemma_replace_at_start(s0, "¤(mana)"@, "mana"@);
    let s1 = "mana"@ + seq![' '] + t;
    assert(s0.subrange("¤(mana)"@.len() as int, s0.len() as int) =~= seq![' '] + t);
    assert("mana"@ + (seq![' '] + t) =~= s1);
    crate::text::lemma_no_mark_joined("mana"@, t);
    crate::text::lemma_replace_absent(s1, "¤(Me)"@, "This card"@);
    crate::text::lemma_replace_absent(s1, "¤(me)"@, "this card"@);
    crate::text::lemma_replace_absent(s1, "¤(I)"@, "This card"@);
    crate::text::lemma_replace_absent(s1, "¤(I am)"@, "This card is"@);
    crate::text::lemma_replace_absent(s1, "¤(i)"@, "this card"@);
    crate::text::lemma_replace_absent(s1, "¤(i am)"@, "this card is"@);
    crate::text::lemma_replace_absent(s1, "¤(my)"@, "this card's"@);
    crate::text::lemma_replace_absent(s1, "¤(My)"@, "This card's"@);
    crate::text::lemma_replace_absent(s1, "¤(Set_my_pos_to_chosen)"@, "Move this card to the chosen position"@);
    crate::text::lemma_replace_absent(s1, "¤(set_my_pos_to_chosen)"@, "move this card to the chosen position"@);
}

/// `¤(Me)`, then a space and a text without `¤`: the command becomes `This card`.
proof fn lemma_bracket_command_30(t: Seq<char>)
    requires
        !t.contains('\u{a4}'),
    ensures
        replace_fixed_bracket("¤(Me)"@ + seq![' '] + t) == "This card"@ + seq![' '] + t,
{
    reveal_strlit("Any Phase");
    reveal_strlit("Attach this card to the chosen card");
    reveal_strlit("Boost");
    reveal_strlit("Card's lane");
    reveal_strlit("Choose a card you control");
    reveal_strlit("Choose a position on your board");
    reveal_strlit("Choose one of your field positions");
    reveal_strlit("Choose one of your reserves");
    reveal_strlit("Combat Only");
    reveal_strlit("Flip");
    reveal_strlit("Hand Only");
    reveal_strlit("Instant");
    reveal_strlit("Mana");
    reveal_strlit("Move this card to the chosen position");
    reveal_strlit("Move this card to the chosen reserve");
    reveal_strlit("Passing");
    reveal_strlit("Position's lane");
    reveal_strlit("Quick");
    reveal_strlit("This card");
    reveal_strlit("This card has");
    reveal_strlit("This card is");
    reveal_strlit("This card's");
    reveal_strlit("XP");
    reveal_strlit("attach this card to the chosen card");
    reveal_strlit("boost");
    reveal_strlit("card's lane");
    reveal_strlit("choose a card you control");
    reveal_strlit("choose a position on your board");
    reveal_strlit("choose one of your field positions");
    reveal_strlit("choose one of your reserves");
    reveal_strlit("mana");
    reveal_strlit("move this card to the chosen position");
    reveal_strlit("move this card to the chosen reserve");
    reveal_strlit("position's lane");
    reveal_strlit("this card");
    reveal_strlit("this card has");
    reveal_strlit("this card is");
    reveal_strlit("this card's");
    reveal_strlit("¤(Attach_me_to_chosen)");
    reveal_strlit("¤(Boost)");
    reveal_strlit("¤(C_to_lane)");
    reveal_strlit("¤(Choose_your_c)");
    reveal_strlit("¤(Choose_your_cpos)");
    reveal_strlit("¤(Choose_your_pos)");
    reveal_strlit("¤(Choose_your_r)");
    reveal_strlit("¤(I am)");
    reveal_strlit("¤(I have)");
    reveal_strlit("¤(I)");
    reveal_strlit("¤(Mana)");
    reveal_strlit("¤(Me)");
    reveal_strlit("¤(Move_me_to_r)");
    reveal_strlit("¤(My)");
    reveal_strlit("¤(Pos_to_lane)");
    reveal_strlit("¤(Set_my_pos_to_chosen)");
    reveal_strlit("¤(Xp)");
    reveal_strlit("¤(any_phase)");
    reveal_strlit("¤(attach_me_to_chosen)");
    reveal_strlit("¤(c_to_lane)");
    reveal_strlit("¤(choose_your_c)");
    reveal_strlit("¤(choose_your_cpos)");
    reveal_strlit("¤(choose_your_pos)");
    reveal_strlit("¤(choose_your_r)");
    reveal_strlit("¤(co)");
    reveal_strlit("¤(flip)");
    reveal_strlit("¤(ho)");
    reveal_strlit("¤(i am)");
    reveal_strlit("¤(i have)");
    reveal_strlit("¤(i)");
    reveal_strlit("¤(instant)");
    reveal_strlit("¤(mana)");
    reveal_strlit("¤(me)");
    reveal_strlit("¤(move_me_to_r)");
    reveal_strlit("¤(my)");
    reveal_strlit("¤(passing)");
    reveal_strlit("¤(pos_to_lane)");
    reveal_strlit("¤(quick)");
    reveal_strlit("¤(set_my_pos_to_chosen)");
    reveal_strlit("¤(xp)");
    let s0 = "¤(Me)"@ + seq![' '] + t;
    crate::text::lemma_mark_only_at_start("¤(Me)"@, t);
    crate::text::lemma_replace_mismatch_at_start(s0, "¤(ho)"@, "Hand Only"@, 2);
    crate::text::lemma_replace_mismatch_at_start(s0, "¤(co)"@, "Combat Only"@, 2);
    crate::text::lemma_replace_mismatch_at_start(s0, "¤(any_phase)"@, "Any Phase"@, 2);
    crate::text::lemma_replace_mismatch_at_start(s0, "¤(flip)"@, "Flip"@, 2);
    crate::text::lemma_replace_mismatch_at_start(s0, "¤(quick)"@, "Quick"@, 2);
    crate::text::lemma_replace_mismatch_at_start(s0, "¤(instant)"@, "Instant"@, 2);
    crate::text::lemma_replace_mismatch_at_start(s0, "¤(passing)"@, "Passing"@, 2);
    crate::text::lemma_replace_mismatch_at_start(s0, "¤(Choose_your_c)"@, "Choose a card you control"@, 2);
    crate::text::lemma_replace_mismatch_at_start(s0, "¤(choose_your_c)"@, "choose a card you control"@, 2);
    crate::text::lemma_replace_mismatch_at_start(s0, "¤(Boost)"@, "Boost"@, 2);
    crate::text::lemma_replace_mismatch_at_start(s0, "¤(Boost)"@, "boost"@, 2);
    crate::text::lemma_replace_mismatch_at_start(s0, "¤(I have)"@, "This card has"@, 2);
    crate::text::lemma_replace_mismatch_at_start(s0, "¤(i have)"@, "this card has"@, 2);
    crate::text::lemma_replace_mismatch_at_start(s0, "¤(C_to_lane)"@, "Card's lane"@, 2);
    crate::text::lemma_replace_mismatch_at_start(s0, "¤(c_to_lane)"@, "card's lane"@, 2);
    crate::text::lemma_replace_mismatch_at_start(s0, "¤(Choose_your_pos)"@, "Choose a position on your board"@, 2);
    crate::text::lemma_replace_mismatch_at_start(s0, "¤(choose_your_pos)"@, "choose a position on your board"@, 2);
    crate::text::lemma_replace_mismatch_at_start(s0, "¤(Choose_your_r)"@, "Choose one of your reserves"@, 2);
    crate::text::lemma_replace_mismatch_at_start(s0, "¤(choose_your_r)"@, "choose one of your reserves"@, 2);
    crate::text::lemma_replace_mismatch_at_start(s0, "¤(Choose_your_cpos)"@, "Choose one of your field positions"@, 2);
    crate::text::lemma_replace_mismatch_at_start(s0, "¤(choose_your_cpos)"@, "choose one of your field positions"@, 2);
    crate::text::lemma_replace_mismatch_at_start(s0, "¤(Pos_to_lane)"@, "Position's lane"@, 2);
    crate::text::lemma_replace_mismatch_at_start(s0, "¤(pos_to_lane)"@, "position's lane"@, 2);
    crate::text::lemma_replace_mismatch_at_start(s0, "¤(Move_me_to_r)"@, "Move this card to the chosen reserve"@, 3);
    crate::text::lemma_replace_mismatch_at_start(s0, "¤(move_me_to_r)"@, "move this card to the chosen reserve"@, 2);
    crate::text::lemma_replace_mismatch_at_start(s0, "¤(Attach_me_to_chosen)"@, "Attach this card to the chosen card"@, 2);
    crate::text::lemma_replace_mismatch_at_start(s0, "¤(attach_me_to_chosen)"@, "attach this card to the chosen card"@, 2);
    crate::text::lemma_replace_mismatch_at_start(s0, "¤(Xp)"@, "XP"@, 2);
    crate::text::lemma_replace_mismatch_at_start(s0, "¤(xp)"@, "XP"@, 2);
    crate::text::lemma_replace_mismatch_at_start(s0, "¤(Mana)"@, "Mana"@, 3);
    crate::text::lemma_replace_mismatch_at_start(s0, "¤(mana)"@, "mana"@, 2);
    assert(s0.subrange(0, "¤(Me)"@.len() as int) =~= "¤(Me)"@);
    crate::text::lemma_replace_at_start(s0, "¤(Me)"@, "This card"@);
    let s1 = "This card"@ + seq![' '] + t;
    assert(s0.subrange("¤(Me)"@.len() as int, s0.len() as int) =~= seq![' '] + t);
    assert("This card"@ + (seq![' '] + t) =~= s1);
    crate::text::lemma_no_mark_joined("This card"@, t);
    crate::text::lemma_replace_absent(s1, "¤(me)"@, "this card"@);
    crate::text::lemma_replace_absent(s1, "¤(I)"@, "This card"@);
    crate::text::lemma_replace_absent(s1, "¤(I am)"@, "This card is"@);
    crate::text::lemma_replace_absent(s1, "¤(i)"@, "this card"@);
    crate::text::lemma_replace_absent(s1, "¤(i am)"@, "this card is"@);
    crate::text::lemma_replace_absent(s1, "¤(my)"@, "this card's"@);
    crate::text::lemma_replace_absent(s1, "¤(My)"@, "This card's"@);
    crate::text::lemma_replace_absent(s1, "¤(Set_my_pos_to_chosen)"@, "Move this card to the chosen position"@);
    crate::text::lemma_replace_absent(s1, "¤(set_my_pos_to_chosen)"@, "move this card to the chosen position"@);
}

/// `¤(me)`, then a space and a text without `¤`: the command becomes `this card`.
proof fn lemma_bracket_command_31(t: Seq<char>)
    requires
        !t.contains('\u{a4}'),
    ensures
        replace_fixed_bracket("¤(me)"@ + seq![' '] + t) == "this card"@ + seq![' '] + t,
{
    reveal_strlit("Any Phase");
    reveal_strlit("Attach this card to the chosen card");
    reveal_strlit("Boost");
    reveal_strlit("Card's lane");
    reveal_strlit("Choose a card you control");
    reveal_strlit("Choose a position on your board");
    reveal_strlit("Choose one of your field positions");
    reveal_strlit("Choose one of your reserves");
    reveal_strlit("Combat Only");
    reveal_strlit("Flip");
    reveal_strlit("Hand Only");
    reveal_strlit("Instant");
    reveal_strlit("Mana");
    reveal_strlit("Move this card to the chosen position");
    reveal_strlit("Move this card to the chosen reserve");
    reveal_strlit("Passing");
    reveal_strlit("Position's lane");
    reveal_strlit("Quick");
    reveal_strlit("This card");
    reveal_strlit("This card has");
    reveal_strlit("This card is");
    reveal_strlit("This card's");
    reveal_strlit("XP");
    reveal_strlit("attach this card to the chosen card");
    reveal_strlit("boost");
    reveal_strlit("card's lane");
    reveal_strlit("choose a card you control");
    reveal_strlit("choose a position on your board");
    reveal_strlit("choose one of your field positions");
    reveal_strlit("choose one of your reserves");
    reveal_strlit("mana");
    reveal_strlit("move this card to the chosen position");
    reveal_strlit("move this card to the chosen reserve");
    reveal_strlit("position's lane");
    reveal_strlit("this card");
    reveal_strlit("this card has");
    reveal_strlit("this card is");
    reveal_strlit("this card's");
    reveal_strlit("¤(Attach_me_to_chosen)");
    reveal_strlit("¤(Boost)");
    reveal_strlit("¤(C_to_lane)");
    reveal_strlit("¤(Choose_your_c)");
    reveal_strlit("¤(Choose_your_cpos)");
    reveal_strlit("¤(Choose_your_pos)");
    reveal_strlit("¤(Choose_your_r)");
    reveal_strlit("¤(I am)");
    reveal_strlit("¤(I have)");
    reveal_strlit("¤(I)");
    reveal_strlit("¤(Mana)");
    reveal_strlit("¤(Me)");
    reveal_strlit("¤(Move_me_to_r)");
    reveal_strlit("¤(My)");
    reveal_strlit("¤(Pos_to_lane)");
    reveal_strlit("¤(Set_my_pos_to_chosen)");
    reveal_strlit("¤(Xp)");
    reveal_strlit("¤(any_phase)");
    reveal_strlit("¤(attach_me_to_chosen)");
    reveal_strlit("¤(c_to_lane)");
    reveal_strlit("¤(choose_your_c)");
    reveal_strlit("¤(choose_your_cpos)");
    reveal_strlit("¤(choose_your_pos)");
    reveal_strlit("¤(choose_your_r)");
    reveal_strlit("¤(co)");
    reveal_strlit("¤(flip)");
    reveal_strlit("¤(ho)");
    reveal_strlit("¤(i am)");
    reveal_strlit("¤(i have)");
    reveal_strlit("¤(i)");
    reveal_strlit("¤(instant)");
    reveal_strlit("¤(mana)");
    reveal_strlit("¤(me)");
    reveal_strlit("¤(move_me_to_r)");
    reveal_strlit("¤(my)");
    reveal_strlit("¤(passing)");
    reveal_strlit("¤(pos_to_lane)");
    reveal_strlit("¤(quick)");
    reveal_strlit("¤(set_my_pos_to_chosen)");
    reveal_strlit("¤(xp)");
    let s0 = "¤(me)"@ + seq![' '] + t;
    crate::text::lemma_mark_only_at_start("¤(me)"@, t);
    crate::text::lemma_replace_mismatch_at_start(s0, "¤(ho)"@, "Hand Only"@, 2);
    crate::text::lemma_replace_mismatch_at_start(s0, "¤(co)"@, "Combat Only"@, 2);
    crate::text::lemma_replace_mismatch_at_start(s0, "¤(any_phase)"@, "Any Phase"@, 2);
    crate::text::lemma_replace_mismatch_at_start(s0, "¤(flip)"@, "Flip"@, 2);
    crate::text::lemma_replace_mismatch_at_start(s0, "¤(quick)"@, "Quick"@, 2);
    crate::text::lemma_replace_mismatch_at_start(s0, "¤(instant)"@, "Instant"@, 2);
    crate::text::lemma_replace_mismatch_at_start(s0, "¤(passing)"@, "Passing"@, 2);
    crate::text::lemma_replace_mismatch_at_start(s0, "¤(Choose_your_c)"@, "Choose a card you control"@, 2);
    crate::text::lemma_replace_mismatch_at_start(s0, "¤(choose_your_c)"@, "choose a card you control"@, 2);
    crate::text::lemma_replace_mismatch_at_start(s0, "¤(Boost)"@, "Boost"@, 2);
    crate::text::lemma_replace_mismatch_at_start(s0, "¤(Boost)"@, "boost"@, 2);
    crate::text::lemma_replace_mismatch_at_start(s0, "¤(I have)"@, "This card has"@, 2);
    crate::text::lemma_replace_mismatch_at_start(s0, "¤(i have)"@, "this card has"@, 2);
    crate::text::lemma_replace_mismatch_at_start(s0, "¤(C_to_lane)"@, "Card's lane"@, 2);
    crate::text::lemma_replace_mismatch_at_start(s0, "¤(c_to_lane)"@, "card's lane"@, 2);
    crate::text::lemma_replace_mismatch_at_start(s0, "¤(Choose_your_pos)"@, "Choose a position on your board"@, 2);
    crate::text::lemma_replace_mismatch_at_start(s0, "¤(choose_your_pos)"@, "choose a position on your board"@, 2);
    crate::text::lemma_replace_mismatch_at_start(s0, "¤(Choose_your_r)"@, "Choose one of your reserves"@, 2);
    crate::text::lemma_replace_mismatch_at_start(s0, "¤(choose_your_r)"@, "choose one of your reserves"@, 2);
    crate::text::lemma_replace_mismatch_at_start(s0, "¤(Choose_your_cpos)"@, "Choose one of your field positions"@, 2);
    crate::text::lemma_replace_mismatch_at_start(s0, "¤(choose_your_cpos)"@, "choose one of your field positions"@, 2);
    crate::text::lemma_replace_mismatch_at_start(s0, "¤(Pos_to_lane)"@, "Position's lane"@, 2);
    crate::text::lemma_replace_mismatch_at_start(s0, "¤(pos_to_lane)"@, "position's lane"@, 2);
    crate::text::lemma_replace_mismatch_at_start(s0, "¤(Move_me_to_r)"@, "Move this card to the chosen reserve"@, 2);
    crate::text::lemma_replace_mismatch_at_start(s0, "¤(move_me_to_r)"@, "move this card to the chosen reserve"@, 3);
    crate::text::lemma_replace_mismatch_at_start(s0, "¤(Attach_me_to_chosen)"@, "Attach this card to the chosen card"@, 2);
    crate::text::lemma_replace_mismatch_at_start(s0, "¤(attach_me_to_chosen)"@, "attach this card to the chosen card"@, 2);
    crate::text::lemma_replace_mismatch_at_start(s0, "¤(Xp)"@, "XP"@, 2);
    crate::text::lemma_replace_mismatch_at_start(s0, "¤(xp)"@, "XP"@, 2);
    crate::text::lemma_replace_mismatch_at_start(s0, "¤(Mana)"@, "Mana"@, 2);
    crate::text::lemma_replace_mismatch_at_start(s0, "¤(mana)"@, "mana"@, 3);
    crate::text::lemma_replace_mismatch_at_start(s0, "¤(Me)"@, "This card"@, 2);
    assert(s0.subrange(0, "¤(me)"@.len() as int) =~= "¤(me)"@);
    crate::text::lemma_replace_at_start(s0, "¤(me)"@, "this card"@);
    let s1 = "this card"@ + seq![' '] + t;
    assert(s0.subrange("¤(me)"@.len() as int, s0.len() as int) =~= seq![' '] + t);
    assert("this card"@ + (seq![' '] + t) =~= s1);
    crate::text::lemma_no_mark_joined("this card"@, t);
    crate::text::lemma_replace_absent(s1, "¤(I)"@, "This card"@);
    crate::text::lemma_replace_absent(s1, "¤(I am)"@, "This card is"@);
    crate::text::lemma_replace_absent(s1, "¤(i)"@, "this card"@);
    crate::text::lemma_replace_absent(s1, "¤(i am)"@, "this card is"@);
    crate::text::lemma_replace_absent(s1, "¤(my)"@, "this card's"@);
    crate::text::lemma_replace_absent(s1, "¤(My)"@, "This card's"@);
    crate::text::lemma_replace_absent(s1, "¤(Set_my_pos_to_chosen)"@, "Move this card to the chosen position"@);
    crate::text::lemma_replace_absent(s1, "¤(set_my_pos_to_chosen)"@, "move this card to the chosen position"@);
}

/// `¤(I)`, then a space and a text without `¤`: the command becomes `This card`.
proof fn lemma_bracket_command_32(t: Seq<char>)
    requires
        !t.contains('\u{a4}'),
    ensures
        replace_fixed_bracket("¤(I)"@ + seq![' '] + t) == "This card"@ + seq![' '] + t,
{
    reveal_strlit("Any Phase");
    reveal_strlit("Attach this card to the chosen card");
    reveal_strlit("Boost");
    reveal_strlit("Card's lane");
    reveal_strlit("Choose a card you control");
    reveal_strlit("Choose a position on your board");
    reveal_strlit("Choose one of your field positions");
    reveal_strlit("Choose one of your reserves");
    reveal_strlit("Combat Only");
    reveal_strlit("Flip");
    reveal_strlit("Hand Only");
    reveal_strlit("Instant");
    reveal_strlit("Mana");
    reveal_strlit("Move this card to the chosen position");
    reveal_strlit("Move this card to the chosen reserve");
    reveal_strlit("Passing");
    reveal_strlit("Position's lane");
    reveal_strlit("Quick");
    reveal_strlit("This card");
    reveal_strlit("This card has");
    reveal_strlit("This card is");
    reveal_strlit("This card's");
    reveal_strlit("XP");
    reveal_strlit("attach this card to the chosen card");
    reveal_strlit("boost");
    reveal_strlit("card's lane");
    reveal_strlit("choose a card you control");
    reveal_strlit("choose a position on your board");
    reveal_strlit("choose one of your field positions");
    reveal_strlit("choose one of your reserves");
    reveal_strlit("mana");
    reveal_strlit("move this card to the chosen position");
    reveal_strlit("move this card to the chosen reserve");
    reveal_strlit("position's lane");
    reveal_strlit("this card");
    reveal_strlit("this card has");
    reveal_strlit("this card is");
    reveal_strlit("this card's");
    reveal_strlit("¤(Attach_me_to_chosen)");
    reveal_strlit("¤(Boost)");
    reveal_strlit("¤(C_to_lane)");
    reveal_strlit("¤(Choose_your_c)");
    reveal_strlit("¤(Choose_your_cpos)");
    reveal_strlit("¤(Choose_your_pos)");
    reveal_strlit("¤(Choose_your_r)");
    reveal_strlit("¤(I am)");
    reveal_strlit("¤(I have)");
    reveal_strlit("¤(I)");
    reveal_strlit("¤(Mana)");
    reveal_strlit("¤(Me)");
    reveal_strlit("¤(Move_me_to_r)");
    reveal_strlit("¤(My)");
    reveal_strlit("¤(Pos_to_lane)");
    reveal_strlit("¤(Set_my_pos_to_chosen)");
    reveal_strlit("¤(Xp)");
    reveal_strlit("¤(any_phase)");
    reveal_strlit("¤(attach_me_to_chosen)");
    reveal_strlit("¤(c_to_lane)");
    reveal_strlit("¤(choose_your_c)");
    reveal_strlit("¤(choose_your_cpos)");
    reveal_strlit("¤(choose_your_pos)");
    reveal_strlit("¤(choose_your_r)");
    reveal_strlit("¤(co)");
    reveal_strlit("¤(flip)");
    reveal_strlit("¤(ho)");
    reveal_strlit("¤(i am)");
    reveal_strlit("¤(i have)");
    reveal_strlit("¤(i)");
    reveal_strlit("¤(instant)");
    reveal_strlit("¤(mana)");
    reveal_strlit("¤(me)");
    reveal_strlit("¤(move_me_to_r)");
    reveal_strlit("¤(my)");
    reveal_strlit("¤(passing)");
    reveal_strlit("¤(pos_to_lane)");
    reveal_strlit("¤(quick)");
    reveal_strlit("¤(set_my_pos_to_chosen)");
    reveal_strlit("¤(xp)");
    let s0 = "¤(I)"@ + seq![' '] + t;
    crate::text::lemma_mark_only_at_start("¤(I)"@, t);
    crate::text::lemma_replace_mismatch_at_start(s0, "¤(ho)"@, "Hand Only"@, 2);
    crate::text::lemma_replace_mismatch_at_start(s0, "¤(co)"@, "Combat Only"@, 2);
    crate::text::lemma_replace_mismatch_at_start(s0, "¤(any_phase)"@, "Any Phase"@, 2);
    crate::text::lemma_replace_mismatch_at_start(s0, "¤(flip)"@, "Flip"@, 2);
    crate::text::lemma_replace_mismatch_at_start(s0, "¤(quick)"@, "Quick"@, 2);
    crate::text::lemma_replace_mismatch_at_start(s0, "¤(instant)"@, "Instant"@, 2);
    crate::text::lemma_replace_mismatch_at_start(s0, "¤(passing)"@, "Passing"@, 2);
    crate::text::lemma_replace_mismatch_at_start(s0, "¤(Choose_your_c)"@, "Choose a card you control"@, 2);
    crate::text::lemma_replace_mismatch_at_start(s0, "¤(choose_your_c)"@, "choose a card you control"@, 2);
    crate::text::lemma_replace_mismatch_at_start(s0, "¤(Boost)"@, "Boost"@, 2);
    crate::text::lemma_replace_mismatch_at_start(s0, "¤(Boost)"@, "boost"@, 2);
    crate::text::lemma_replace_mismatch_at_start(s0, "¤(I have)"@, "This card has"@, 3);
    crate::text::lemma_replace_mismatch_at_start(s0, "¤(i have)"@, "this card has"@, 2);
    crate::text::lemma_replace_mismatch_at_start(s0, "¤(C_to_lane)"@, "Card's lane"@, 2);
    crate::text::lemma_replace_mismatch_at_start(s0, "¤(c_to_lane)"@, "card's lane"@, 2);
    crate::text::lemma_replace_mismatch_at_start(s0, "¤(Choose_your_pos)"@, "Choose a position on your board"@, 2);
    crate::text::lemma_replace_mismatch_at_start(s0, "¤(choose_your_pos)"@, "choose a position on your board"@, 2);
    crate::text::lemma_replace_mismatch_at_start(s0, "¤(Choose_your_r)"@, "Choose one of your reserves"@, 2);
    crate::text::lemma_replace_mismatch_at_start(s0, "¤(choose_your_r)"@, "choose one of your reserves"@, 2);
    crate::text::lemma_replace_mismatch_at_start(s0, "¤(Choose_your_cpos)"@, "Choose one of your field positions"@, 2);
    crate::text::lemma_replace_mismatch_at_start(s0, "¤(choose_your_cpos)"@, "choose one of your field positions"@, 2);
    crate::text::lemma_replace_mismatch_at_start(s0, "¤(Pos_to_lane)"@, "Position's lane"@, 2);
    crate::text::lemma_replace_mismatch_at_start(s0, "¤(pos_to_lane)"@, "position's lane"@, 2);
    crate::text::lemma_replace_mismatch_at_start(s0, "¤(Move_me_to_r)"@, "Move this card to the chosen reserve"@, 2);
    crate::text::lemma_replace_mismatch_at_start(s0, "¤(move_me_to_r)"@, "move this card to the chosen reserve"@, 2);
    crate::text::lemma_replace_mismatch_at_start(s0, "¤(Attach_me_to_chosen)"@, "Attach this card to the chosen card"@, 2);
    crate::text::lemma_replace_mismatch_at_start(s0, "¤(attach_me_to_chosen)"@, "attach this card to the chosen card"@, 2);
    crate::text::lemma_replace_mismatch_at_start(s0, "¤(Xp)"@, "XP"@, 2);
    crate::text::lemma_replace_mismatch_at_start(s0, "¤(xp)"@, "XP"@, 2);
    crate::text::lemma_replace_mismatch_at_start(s0, "¤(Mana)"@, "Mana"@, 2);
    crate::text::lemma_replace_mismatch_at_start(s0, "¤(mana)"@, "mana"@, 2);
    crate::text::lemma_replace_mismatch_at_start(s0, "¤(Me)"@, "This card"@, 2);
    crate::text::lemma_replace_mismatch_at_start(s0, "¤(me)"@, "this card"@, 2);
    assert(s0.subrange(0, "¤(I)"@.len() as int) =~= "¤(I)"@);
    crate::text::lemma_replace_at_start(s0, "¤(I)"@, "This card"@);
    let s1 = "This card"@ + seq![' '] + t;
    assert(s0.subrange("¤(I)"@.len() as int, s0.len() as int) =~= seq![' '] + t);
    assert("This card"@ + (seq![' '] + t) =~= s1);
    crate::text::lemma_no_mark_joined("This card"@, t);
    crate::text::lemma_replace_absent(s1, "¤(I am)"@, "This card is"@);
    crate::text::lemma_replace_absent(s1, "¤(i)"@, "this card"@);
    crate::text::lemma_replace_absent(s1, "¤(i am)"@, "this card is"@);
    crate::text::lemma_replace_absent(s1, "¤(my)"@, "this card's"@);
    crate::text::lemma_replace_absent(s1, "¤(My)"@, "This card's"@);
    crate::text::lemma_replace_absent(s1, "¤(Set_my_pos_to_chosen)"@, "Move this card to the chosen position"@);
    crate::text::lemma_replace_absent(s1, "¤(set_my_pos_to_chosen)"@, "move this card to the chosen position"@);
}

/// `¤(I am)`, then a space and a text without `¤`: the command becomes `This card is`.
proof fn lemma_bracket_command_33(t: Seq<char>)
    requires
        !t.contains('\u{a4}'),
    ensures
        replace_fixed_bracket("¤(I am)"@ + seq![' '] + t) == "This card is"@ + seq![' '] + t,
{
    reveal_strlit("Any Phase");
    reveal_strlit("Attach this card to the chosen card");
    reveal_strlit("Boost");
    reveal_strlit("Card's lane");
    reveal_strlit("Choose a card you control");
    reveal_strlit("Choose a position on your board");
    reveal_strlit("Choose one of your field positions");
    reveal_strlit("Choose one of your reserves");
    reveal_strlit("Combat Only");
    reveal_strlit("Flip");
    reveal_strlit("Hand Only");
    reveal_strlit("Instant");
    reveal_strlit("Mana");
    reveal_strlit("Move this card to the chosen position");
    reveal_strlit("Move this card to the chosen reserve");
    reveal_strlit("Passing");
    reveal_strlit("Position's lane");
    reveal_strlit("Quick");
    reveal_strlit("This card");
    reveal_strlit("This card has");
    reveal_strlit("This card is");
    reveal_strlit("This card's");
    reveal_strlit("XP");
    reveal_strlit("attach this card to the chosen card");
    reveal_strlit("boost");
    reveal_strlit("card's lane");
    reveal_strlit("choose a card you control");
    reveal_strlit("choose a position on your board");
    reveal_strlit("choose one of your field positions");
    reveal_strlit("choose one of your reserves");
    reveal_strlit("mana");
    reveal_strlit("move this card to the chosen position");
    reveal_strlit("move this card to the chosen reserve");
    reveal_strlit("position's lane");
    reveal_strlit("this card");
    reveal_strlit("this card has");
    reveal_strlit("this card is");
    reveal_strlit("this card's");
    reveal_strlit("¤(Attach_me_to_chosen)");
    reveal_strlit("¤(Boost)");
    reveal_strlit("¤(C_to_lane)");
    reveal_strlit("¤(Choose_your_c)");
    reveal_strlit("¤(Choose_your_cpos)");
    reveal_strlit("¤(Choose_your_pos)");
    reveal_strlit("¤(Choose_your_r)");
    reveal_strlit("¤(I am)");
    reveal_strlit("¤(I have)");
    reveal_strlit("¤(I)");
    reveal_strlit("¤(Mana)");
    reveal_strlit("¤(Me)");
    reveal_strlit("¤(Move_me_to_r)");
    reveal_strlit("¤(My)");
    reveal_strlit("¤(Pos_to_lane)");
    reveal_strlit("¤(Set_my_pos_to_chosen)");
    reveal_strlit("¤(Xp)");
    reveal_strlit("¤(any_phase)");
    reveal_strlit("¤(attach_me_to_chosen)");
    reveal_strlit("¤(c_to_lane)");
    reveal_strlit("¤(choose_your_c)");
    reveal_strlit("¤(choose_your_cpos)");
    reveal_strlit("¤(choose_your_pos)");
    reveal_strlit("¤(choose_your_r)");
    reveal_strlit("¤(co)");
    reveal_strlit("¤(flip)");
    reveal_strlit("¤(ho)");
    reveal_strlit("¤(i am)");
    reveal_strlit("¤(i have)");
    reveal_strlit("¤(i)");
    reveal_strlit("¤(instant)");
    reveal_strlit("¤(mana)");
    reveal_strlit("¤(me)");
    reveal_strlit("¤(move_me_to_r)");
    reveal_strlit("¤(my)");
    reveal_strlit("¤(passing)");
    reveal_strlit("¤(pos_to_lane)");
    reveal_strlit("¤(quick)");
    reveal_strlit("¤(set_my_pos_to_chosen)");
    reveal_strlit("¤(xp)");
    let s0 = "¤(I am)"@ + seq![' '] + t;
    crate::text::lemma_mark_only_at_start("¤(I am)"@, t);
    crate::text::lemma_replace_mismatch_at_start(s0, "¤(ho)"@, "Hand Only"@, 2);
    crate::text::lemma_replace_mismatch_at_start(s0, "¤(co)"@, "Combat Only"@, 2);
    crate::text::lemma_replace_mismatch_at_start(s0, "¤(any_phase)"@, "Any Phase"@, 2);
    crate::text::lemma_replace_mismatch_at_start(s0, "¤(flip)"@, "Flip"@, 2);
    crate::text::lemma_replace_mismatch_at_start(s0, "¤(quick)"@, "Quick"@, 2);
    crate::text::lemma_replace_mismatch_at_start(s0, "¤(instant)"@, "Instant"@, 2);
    crate::text::lemma_replace_mismatch_at_start(s0, "¤(passing)"@, "Passing"@, 2);
    crate::text::lemma_replace_mismatch_at_start(s0, "¤(Choose_your_c)"@, "Choose a card you control"@, 2);
    crate::text::lemma_replace_mismatch_at_start(s0, "¤(choose_your_c)"@, "choose a card you control"@, 2);
    crate::text::lemma_replace_mismatch_at_start(s0, "¤(Boost)"@, "Boost"@, 2);
    crate::text::lemma_replace_mismatch_at_start(s0, "¤(Boost)"@, "boost"@, 2);
    crate::text::lemma_replace_mismatch_at_start(s0, "¤(I have)"@, "This card has"@, 4);
    crate::text::lemma_replace_mismatch_at_start(s0, "¤(i have)"@, "this card has"@, 2);
    crate::text::lemma_replace_mismatch_at_start(s0, "¤(C_to_lane)"@, "Card's lane"@, 2);
    crate::text::lemma_replace_mismatch_at_start(s0, "¤(c_to_lane)"@, "card's lane"@, 2);
    crate::text::lemma_replace_mismatch_at_start(s0, "¤(Choose_your_pos)"@, "Choose a position on your board"@, 2);
    crate::text::lemma_replace_mismatch_at_start(s0, "¤(choose_your_pos)"@, "choose a position on your board"@, 2);
    crate::text::lemma_replace_mismatch_at_start(s0, "¤(Choose_your_r)"@, "Choose one of your reserves"@, 2);
    crate::text::lemma_replace_mismatch_at_start(s0, "¤(choose_your_r)"@, "choose one of your reserves"@, 2);
    crate::text::lemma_replace_mismatch_at_start(s0, "¤(Choose_your_cpos)"@, "Choose one of your field positions"@, 2);
    crate::text::lemma_replace_mismatch_at_start(s0, "¤(choose_your_cpos)"@, "choose one of your field positions"@, 2);
    crate::text::lemma_replace_mismatch_at_start(s0, "¤(Pos_to_lane)"@, "Position's lane"@, 2);
    crate::text::lemma_replace_mismatch_at_start(s0, "¤(pos_to_lane)"@, "position's lane"@, 2);
    crate::text::lemma_replace_mismatch_at_start(s0, "¤(Move_me_to_r)"@, "Move this card to the chosen reserve"@, 2);
    crate::text::lemma_replace_mismatch_at_start(s0, "¤(move_me_to_r)"@, "move this card to the chosen reserve"@, 2);
    crate::text::lemma_replace_mismatch_at_start(s0, "¤(Attach_me_to_chosen)"@, "Attach this card to the chosen card"@, 2);
    crate::text::lemma_replace_mismatch_at_start(s0, "¤(attach_me_to_chosen)"@, "attach this card to the chosen card"@, 2);
    crate::text::lemma_replace_mismatch_at_start(s0, "¤(Xp)"@, "XP"@, 2);
    crate::text::lemma_replace_mismatch_at_start(s0, "¤(xp)"@, "XP"@, 2);
    crate::text::lemma_replace_mismatch_at_start(s0, "¤(Mana)"@, "Mana"@, 2);
    crate::text::lemma_replace_mismatch_at_start(s0, "¤(mana)"@, "mana"@, 2);
    crate::text::lemma_replace_mismatch_at_start(s0, "¤(Me)"@, "This card"@, 2);
    crate::text::lemma_replace_mismatch_at_start(s0, "¤(me)"@, "this card"@, 2);
    crate::text::lemma_replace_mismatch_at_start(s0, "¤(I)"@, "This card"@, 3);
    assert(s0.subrange(0, "¤(I am)"@.len() as int) =~= "¤(I am)"@);
    crate::text::lemma_replace_at_start(s0, "¤(I am)"@, "This card is"@);
    let s1 = "This card is"@ + seq![' '] + t;
    assert(s0.subrange("¤(I am)"@.len() as int, s0.len() as int) =~= seq![' '] + t);
    assert("This card is"@ + (seq![' '] + t) =~= s1);
    crate::text::lemma_no_mark_joined("This card is"@, t);
    crate::text::lemma_replace_absent(s1, "¤(i)"@, "this card"@);
    crate::text::lemma_replace_absent(s1, "¤(i am)"@, "this card is"@);
    crate::text::lemma_replace_absent(s1, "¤(my)"@, "this card's"@);
    crate::text::lemma_replace_absent(s1, "¤(My)"@, "This card's"@);
    crate::text::lemma_replace_absent(s1, "¤(Set_my_pos_to_chosen)"@, "Move this card to the chosen position"@);
    crate::text::lemma_replace_absent(s1, "¤(set_my_pos_to_chosen)"@, "move this card to the chosen position"@);
}

/// `¤(i)`, then a space and a text without `¤`: the command becomes `this card`.
proof fn lemma_bracket_command_34(t: Seq<char>)
    requires
        !t.contains('\u{a4}'),
    ensures
        replace_fixed_bracket("¤(i)"@ + seq![' '] + t) == "this card"@ + seq![' '] + t,
{
    reveal_strlit("Any Phase");
    reveal_strlit("Attach this card to the chosen card");
    reveal_strlit("Boost");
    reveal_strlit("Card's lane");
    reveal_strlit("Choose a card you control");
    reveal_strlit("Choose a position on your board");
    reveal_strlit("Choose one of your field positions");
    reveal_strlit("Choose one of your reserves");
    reveal_strlit("Combat Only");
    reveal_strlit("Flip");
    reveal_strlit("Hand Only");
    reveal_strlit("Instant");
    reveal_strlit("Mana");
    reveal_strlit("Move this card to the chosen position");
    reveal_strlit("Move this card to the chosen reserve");
    reveal_strlit("Passing");
    reveal_strlit("Position's lane");
    reveal_strlit("Quick");
    reveal_strlit("This card");
    reveal_strlit("This card has");
    reveal_strlit("This card is");
    reveal_strlit("This card's");
    reveal_strlit("XP");
    reveal_strlit("attach this card to the chosen card");
    reveal_strlit("boost");
    reveal_strlit("card's lane");
    reveal_strlit("choose a card you control");
    reveal_strlit("choose a position on your board");
    reveal_strlit("choose one of your field positions");
    reveal_strlit("choose one of your reserves");
    reveal_strlit("mana");
    reveal_strlit("move this card to the chosen position");
    reveal_strlit("move this card to the chosen reserve");
    reveal_strlit("position's lane");
    reveal_strlit("this card");
    reveal_strlit("this card has");
    reveal_strlit("this card is");
    reveal_strlit("this card's");
    reveal_strlit("¤(Attach_me_to_chosen)");
    reveal_strlit("¤(Boost)");
    reveal_strlit("¤(C_to_lane)");
    reveal_strlit("¤(Choose_your_c)");
    reveal_strlit("¤(Choose_your_cpos)");
    reveal_strlit("¤(Choose_your_pos)");
    reveal_strlit("¤(Choose_your_r)");
    reveal_strlit("¤(I am)");
    reveal_strlit("¤(I have)");
    reveal_strlit("¤(I)");
    reveal_strlit("¤(Mana)");
    reveal_strlit("¤(Me)");
    reveal_strlit("¤(Move_me_to_r)");
    reveal_strlit("¤(My)");
    reveal_strlit("¤(Pos_to_lane)");
    reveal_strlit("¤(Set_my_pos_to_chosen)");
    reveal_strlit("¤(Xp)");
    reveal_strlit("¤(any_phase)");
    reveal_strlit("¤(attach_me_to_chosen)");
    reveal_strlit("¤(c_to_lane)");
    reveal_strlit("¤(choose_your_c)");
    reveal_strlit("¤(choose_your_cpos)");
    reveal_strlit("¤(choose_your_pos)");
    reveal_strlit("¤(choose_your_r)");
    reveal_strlit("¤(co)");
    reveal_strlit("¤(flip)");
    reveal_strlit("¤(ho)");
    reveal_strlit("¤(i am)");
    reveal_strlit("¤(i have)");
    reveal_strlit("¤(i)");
    reveal_strlit("¤(instant)");
    reveal_strlit("¤(mana)");
    reveal_strlit("¤(me)");
    reveal_strlit("¤(move_me_to_r)");
    reveal_strlit("¤(my)");
    reveal_strlit("¤(passing)");
    reveal_strlit("¤(pos_to_lane)");
    reveal_strlit("¤(quick)");
    reveal_strlit("¤(set_my_pos_to_chosen)");
    reveal_strlit("¤(xp)");
    let s0 = "¤(i)"@ + seq![' '] + t;
    crate::text::lemma_mark_only_at_start("¤(i)"@, t);
    crate::text::lemma_replace_mismatch_at_start(s0, "¤(ho)"@, "Hand Only"@, 2);
    crate::text::lemma_replace_mismatch_at_start(s0, "¤(co)"@, "Combat Only"@, 2);
    crate::text::lemma_replace_mismatch_at_start(s0, "¤(any_phase)"@, "Any Phase"@, 2);
    crate::text::lemma_replace_mismatch_at_start(s0, "¤(flip)"@, "Flip"@, 2);
    crate::text::lemma_replace_mismatch_at_start(s0, "¤(quick)"@, "Quick"@, 2);
    crate::text::lemma_replace_mismatch_at_start(s0, "¤(instant)"@, "Instant"@, 3);
    crate::text::lemma_replace_mismatch_at_start(s0, "¤(passing)"@, "Passing"@, 2);
    crate::text::lemma_replace_mismatch_at_start(s0, "¤(Choose_your_c)"@, "Choose a card you control"@, 2);
    crate::text::lemma_replace_mismatch_at_start(s0, "¤(choose_your_c)"@, "choose a card you control"@, 2);
    crate::text::lemma_replace_mismatch_at_start(s0, "¤(Boost)"@, "Boost"@, 2);
    crate::text::lemma_replace_mismatch_at_start(s0, "¤(Boost)"@, "boost"@, 2);
    crate::text::lemma_replace_mismatch_at_start(s0, "¤(I have)"@, "This card has"@, 2);
    crate::text::lemma_replace_mismatch_at_start(s0, "¤(i have)"@, "this card has"@, 3);
    crate::text::lemma_replace_mismatch_at_start(s0, "¤(C_to_lane)"@, "Card's lane"@, 2);
    crate::text::lemma_replace_mismatch_at_start(s0, "¤(c_to_lane)"@, "card's lane"@, 2);
    crate::text::lemma_replace_mismatch_at_start(s0, "¤(Choose_your_pos)"@, "Choose a position on your board"@, 2);
    crate::text::lemma_replace_mismatch_at_start(s0, "¤(choose_your_pos)"@, "choose a position on your board"@, 2);
    crate::text::lemma_replace_mismatch_at_start(s0, "¤(Choose_your_r)"@, "Choose one of your reserves"@, 2);
    crate::text::lemma_replace_mismatch_at_start(s0, "¤(choose_your_r)"@, "choose one of your reserves"@, 2);
    crate::text::lemma_replace_mismatch_at_start(s0, "¤(Choose_your_cpos)"@, "Choose one of your field positions"@, 2);
    crate::text::lemma_replace_mismatch_at_start(s0, "¤(choose_your_cpos)"@, "choose one of your field positions"@, 2);
    crate::text::lemma_replace_mismatch_at_start(s0, "¤(Pos_to_lane)"@, "Position's lane"@, 2);
    crate::text::lemma_replace_mismatch_at_start(s0, "¤(pos_to_lane)"@, "position's lane"@, 2);
    crate::text::lemma_replace_mismatch_at_start(s0, "¤(Move_me_to_r)"@, "Move this card to the chosen reserve"@, 2);
    crate::text::lemma_replace_mismatch_at_start(s0, "¤(move_me_to_r)"@, "move this card to the chosen reserve"@, 2);
    crate::text::lemma_replace_mismatch_at_start(s0, "¤(Attach_me_to_chosen)"@, "Attach this card to the chosen card"@, 2);
    crate::text::lemma_replace_mismatch_at_start(s0, "¤(attach_me_to_chosen)"@, "attach this card to the chosen card"@, 2);
    crate::text::lemma_replace_mismatch_at_start(s0, "¤(Xp)"@, "XP"@, 2);
    crate::text::lemma_replace_mismatch_at_start(s0, "¤(xp)"@, "XP"@, 2);
    crate::text::lemma_replace_mismatch_at_start(s0, "¤(Mana)"@, "Mana"@, 2);
    crate::text::lemma_replace_mismatch_at_start(s0, "¤(mana)"@, "mana"@, 2);
    crate::text::lemma_replace_mismatch_at_start(s0, "¤(Me)"@, "This card"@, 2);
    crate::text::lemma_replace_mismatch_at_start(s0, "¤(me)"@, "this card"@, 2);
    crate::text::lemma_replace_mismatch_at_start(s0, "¤(I)"@, "This card"@, 2);
    crate::text::lemma_replace_mismatch_at_start(s0, "¤(I am)"@, "This card is"@, 2);
    assert(s0.subrange(0, "¤(i)"@.len() as int) =~= "¤(i)"@);
    crate::text::lemma_replace_at_start(s0, "¤(i)"@, "this card"@);
    let s1 = "this card"@ + seq![' '] + t;
    assert(s0.subrange("¤(i)"@.len() as int, s0.len() as int) =~= seq![' '] + t);
    assert("this card"@ + (seq![' '] + t) =~= s1);
    crate::text::lemma_no_mark_joined("this card"@, t);
    crate::text::lemma_replace_absent(s1, "¤(i am)"@, "this card is"@);
    crate::text::lemma_replace_absent(s1, "¤(my)"@, "this card's"@);
    crate::text::lemma_replace_absent(s1, "¤(My)"@, "This card's"@);
    crate::text::lemma_replace_absent(s1, "¤(Set_my_pos_to_chosen)"@, "Move this card to the chosen position"@);
    crate::text::lemma_replace_absent(s1, "¤(set_my_pos_to_chosen)"@, "move this card to the chosen position"@);
}

/// `¤(i am)`, then a space and a text without `¤`: the command becomes `this card is`.
proof fn lemma_bracket_command_35(t: Seq<char>)
    requires
        !t.contains('\u{a4}'),
    ensures
        replace_fixed_bracket("¤(i am)"@ + seq![' '] + t) == "this card is"@ + seq![' '] + t,
{
    reveal_strlit("Any Phase");
    reveal_strlit("Attach this card to the chosen card");
    reveal_strlit("Boost");
    reveal_strlit("Card's lane");
    reveal_strlit("Choose a card you control");
    reveal_strlit("Choose a position on your board");
    reveal_strlit("Choose one of your field positions");
    reveal_strlit("Choose one of your reserves");
    reveal_strlit("Combat Only");
    reveal_strlit("Flip");
    reveal_strlit("Hand Only");
    reveal_strlit("Instant");
    reveal_strlit("Mana");
    reveal_strlit("Move this card to the chosen position");
    reveal_strlit("Move this card to the chosen reserve");
    reveal_strlit("Passing");
    reveal_strlit("Position's lane");
    reveal_strlit("Quick");
    reveal_strlit("This card");
    reveal_strlit("This card has");
    reveal_strlit("This card is");
    reveal_strlit("This card's");
    reveal_strlit("XP");
    reveal_strlit("attach this card to the chosen card");
    reveal_strlit("boost");
    reveal_strlit("card's lane");
    reveal_strlit("choose a card you control");
    reveal_strlit("choose a position on your board");
    reveal_strlit("choose one of your field positions");
    reveal_strlit("choose one of your reserves");
    reveal_strlit("mana");
    reveal_strlit("move this card to the chosen position");
    reveal_strlit("move this card to the chosen reserve");
    reveal_strlit("position's lane");
    reveal_strlit("this card");
    reveal_strlit("this card has");
    reveal_strlit("this card is");
    reveal_strlit("this card's");
    reveal_strlit("¤(Attach_me_to_chosen)");
    reveal_strlit("¤(Boost)");
    reveal_strlit("¤(C_to_lane)");
    reveal_strlit("¤(Choose_your_c)");
    reveal_strlit("¤(Choose_your_cpos)");
    reveal_strlit("¤(Choose_your_pos)");
    reveal_strlit("¤(Choose_your_r)");
    reveal_strlit("¤(I am)");
    reveal_strlit("¤(I have)");
    reveal_strlit("¤(I)");
    reveal_strlit("¤(Mana)");
    reveal_strlit("¤(Me)");
    reveal_strlit("¤(Move_me_to_r)");
    reveal_strlit("¤(My)");
    reveal_strlit("¤(Pos_to_lane)");
    reveal_strlit("¤(Set_my_pos_to_chosen)");
    reveal_strlit("¤(Xp)");
    reveal_strlit("¤(any_phase)");
    reveal_strlit("¤(attach_me_to_chosen)");
    reveal_strlit("¤(c_to_lane)");
    reveal_strlit("¤(choose_your_c)");
    reveal_strlit("¤(choose_your_cpos)");
    reveal_strlit("¤(choose_your_pos)");
    reveal_strlit("¤(choose_your_r)");
    reveal_strlit("¤(co)");
    reveal_strlit("¤(flip)");
    reveal_strlit("¤(ho)");
    reveal_strlit("¤(i am)");
    reveal_strlit("¤(i have)");
    reveal_strlit("¤(i)");
    reveal_strlit("¤(instant)");
    reveal_strlit("¤(mana)");
    reveal_strlit("¤(me)");
    reveal_strlit("¤(move_me_to_r)");
    reveal_strlit("¤(my)");
    reveal_strlit("¤(passing)");
    reveal_strlit("¤(pos_to_lane)");
    reveal_strlit("¤(quick)");
    reveal_strlit("¤(set_my_pos_to_chosen)");
    reveal_strlit("¤(xp)");
    let s0 = "¤(i am)"@ + seq![' '] + t;
    crate::text::lemma_mark_only_at_start("¤(i am)"@, t);
    crate::text::lemma_replace_mismatch_at_start(s0, "¤(ho)"@, "Hand Only"@, 2);
    crate::text::lemma_replace_mismatch_at_start(s0, "¤(co)"@, "Combat Only"@, 2);
    crate::text::lemma_replace_mismatch_at_start(s0, "¤(any_phase)"@, "Any Phase"@, 2);
    crate::text::lemma_replace_mismatch_at_start(s0, "¤(flip)"@, "Flip"@, 2);
    crate::text::lemma_replace_mismatch_at_start(s0, "¤(quick)"@, "Quick"@, 2);
    crate::text::lemma_replace_mismatch_at_start(s0, "¤(instant)"@, "Instant"@, 3);
    crate::text::lemma_replace_mismatch_at_start(s0, "¤(passing)"@, "Passing"@, 2);
    crate::text::lemma_replace_mismatch_at_start(s0, "¤(Choose_your_c)"@, "Choose a card you control"@, 2);
    crate::text::lemma_replace_mismatch_at_start(s0, "¤(choose_your_c)"@, "choose a card you control"@, 2);
    crate::text::lemma_replace_mismatch_at_start(s0, "¤(Boost)"@, "Boost"@, 2);
    crate::text::lemma_replace_mismatch_at_start(s0, "¤(Boost)"@, "boost"@, 2);
    crate::text::lemma_replace_mismatch_at_start(s0, "¤(I have)"@, "This card has"@, 2);
    crate::text::lemma_replace_mismatch_at_start(s0, "¤(i have)"@, "this card has"@, 4);
    crate::text::lemma_replace_mismatch_at_start(s0, "¤(C_to_lane)"@, "Card's lane"@, 2);
    crate::text::lemma_replace_mismatch_at_start(s0, "¤(c_to_lane)"@, "card's lane"@, 2);
    crate::text::lemma_replace_mismatch_at_start(s0, "¤(Choose_your_pos)"@, "Choose a position on your board"@, 2);
    crate::text::lemma_replace_mismatch_at_start(s0, "¤(choose_your_pos)"@, "choose a position on your board"@, 2);
    crate::text::lemma_replace_mismatch_at_start(s0, "¤(Choose_your_r)"@, "Choose one of your reserves"@, 2);
    crate::text::lemma_replace_mismatch_at_start(s0, "¤(choose_your_r)"@, "choose one of your reserves"@, 2);
    crate::text::lemma_replace_mismatch_at_start(s0, "¤(Choose_your_cpos)"@, "Choose one of your field positions"@, 2);
    crate::text::lemma_replace_mismatch_at_start(s0, "¤(choose_your_cpos)"@, "choose one of your field positions"@, 2);
    crate::text::lemma_replace_mismatch_at_start(s0, "¤(Pos_to_lane)"@, "Position's lane"@, 2);
    crate::text::lemma_replace_mismatch_at_start(s0, "¤(pos_to_lane)"@, "position's lane"@, 2);
    crate::text::lemma_replace_mismatch_at_start(s0, "¤(Move_me_to_r)"@, "Move this card to the chosen reserve"@, 2);
    crate::text::lemma_replace_mismatch_at_start(s0, "¤(move_me_to_r)"@, "move this card to the chosen reserve"@, 2);
    crate::text::lemma_replace_mismatch_at_start(s0, "¤(Attach_me_to_chosen)"@, "Attach this card to the chosen card"@, 2);
    crate::text::lemma_replace_mismatch_at_start(s0, "¤(attach_me_to_chosen)"@, "attach this card to the chosen card"@, 2);
    crate::text::lemma_replace_mismatch_at_start(s0, "¤(Xp)"@, "XP"@, 2);
    crate::text::lemma_replace_mismatch_at_start(s0, "¤(xp)"@, "XP"@, 2);
    crate::text::lemma_replace_mismatch_at_start(s0, "¤(Mana)"@, "Mana"@, 2);
    crate::text::lemma_replace_mismatch_at_start(s0, "¤(mana)"@, "mana"@, 2);
    crate::text::lemma_replace_mismatch_at_start(s0, "¤(Me)"@, "This card"@, 2);
    crate::text::lemma_replace_mismatch_at_start(s0, "¤(me)"@, "this card"@, 2);
    crate::text::lemma_replace_mismatch_at_start(s0, "¤(I)"@, "This card"@, 2);
    crate::text::lemma_replace_mismatch_at_start(s0, "¤(I am)"@, "This card is"@, 2);
    crate::text::lemma_replace_mismatch_at_start(s0, "¤(i)"@, "this card"@, 3);
    assert(s0.subrange(0, "¤(i am)"@.len() as int) =~= "¤(i am)"@);
    crate::text::lemma_replace_at_start(s0, "¤(i am)"@, "this card is"@);
    let s1 = "this card is"@ + seq![' '] + t;
    assert(s0.subrange("¤(i am)"@.len() as int, s0.len() as int) =~= seq![' '] + t);
    assert("this card is"@ + (seq![' '] + t) =~= s1);
    crate::text::lemma_no_mark_joined("this card is"@, t);
    crate::text::lemma_replace_absent(s1, "¤(my)"@, "this card's"@);
    crate::text::lemma_replace_absent(s1, "¤(My)"@, "This card's"@);
    crate::text::lemma_replace_absent(s1, "¤(Set_my_pos_to_chosen)"@, "Move this card to the chosen position"@);
    crate::text::lemma_replace_absent(s1, "¤(set_my_pos_to_chosen)"@, "move this card to the chosen position"@);
}

/// `¤(my)`, then a space and a text without `¤`: the command becomes `this card's`.
proof fn lemma_bracket_command_36(t: Seq<char>)
    requires
        !t.contains('\u{a4}'),
    ensures
        replace_fixed_bracket("¤(my)"@ + seq![' '] + t) == "this card's"@ + seq![' '] + t,
{
    reveal_strlit("Any Phase");
    reveal_strlit("Attach this card to the chosen card");
    reveal_strlit("Boost");
    reveal_strlit("Card's lane");
    reveal_strlit("Choose a card you control");
    reveal_strlit("Choose a position on your board");
    reveal_strlit("Choose one of your field positions");
    reveal_strlit("Choose one of your reserves");
    reveal_strlit("Combat Only");
    reveal_strlit("Flip");
    reveal_strlit("Hand Only");
    reveal_strlit("Instant");
    reveal_strlit("Mana");
    reveal_strlit("Move this card to the chosen position");
    reveal_strlit("Move this card to the chosen reserve");
    reveal_strlit("Passing");
    reveal_strlit("Position's lane");
    reveal_strlit("Quick");
    reveal_strlit("This card");
    reveal_strlit("This card has");
    reveal_strlit("This card is");
    reveal_strlit("This card's");
    reveal_strlit("XP");
    reveal_strlit("attach this card to the chosen card");
    reveal_strlit("boost");
    reveal_strlit("card's lane");
    reveal_strlit("choose a card you control");
    reveal_strlit("choose a position on your board");
    reveal_strlit("choose one of your field positions");
    reveal_strlit("choose one of your reserves");
    reveal_strlit("mana");
    reveal_strlit("move this card to the chosen position");
    reveal_strlit("move this card to the chosen reserve");
    reveal_strlit("position's lane");
    reveal_strlit("this card");
    reveal_strlit("this card has");
    reveal_strlit("this card is");
    reveal_strlit("this card's");
    reveal_strlit("¤(Attach_me_to_chosen)");
    reveal_strlit("¤(Boost)");
    reveal_strlit("¤(C_to_lane)");
    reveal_strlit("¤(Choose_your_c)");
    reveal_strlit("¤(Choose_your_cpos)");
    reveal_strlit("¤(Choose_your_pos)");
    reveal_strlit("¤(Choose_your_r)");
    reveal_strlit("¤(I am)");
    reveal_strlit("¤(I have)");
    reveal_strlit("¤(I)");
    reveal_strlit("¤(Mana)");
    reveal_strlit("¤(Me)");
    reveal_strlit("¤(Move_me_to_r)");
    reveal_strlit("¤(My)");
    reveal_strlit("¤(Pos_to_lane)");
    reveal_strlit("¤(Set_my_pos_to_chosen)");
    reveal_strlit("¤(Xp)");
    reveal_strlit("¤(any_phase)");
    reveal_strlit("¤(attach_me_to_chosen)");
    reveal_strlit("¤(c_to_lane)");
    reveal_strlit("¤(choose_your_c)");
    reveal_strlit("¤(choose_your_cpos)");
    reveal_strlit("¤(choose_your_pos)");
    reveal_strlit("¤(choose_your_r)");
    reveal_strlit("¤(co)");
    reveal_strlit("¤(flip)");
    reveal_strlit("¤(ho)");
    reveal_strlit("¤(i am)");
    reveal_strlit("¤(i have)");
    reveal_strlit("¤(i)");
    reveal_strlit("¤(instant)");
    reveal_strlit("¤(mana)");
    reveal_strlit("¤(me)");
    reveal_strlit("¤(move_me_to_r)");
    reveal_strlit("¤(my)");
    reveal_strlit("¤(passing)");
    reveal_strlit("¤(pos_to_lane)");
    reveal_strlit("¤(quick)");
    reveal_strlit("¤(set_my_pos_to_chosen)");
    reveal_strlit("¤(xp)");
    let s0 = "¤(my)"@ + seq![' '] + t;
    crate::text::lemma_mark_only_at_start("¤(my)"@, t);
    crate::text::lemma_replace_mismatch_at_start(s0, "¤(ho)"@, "Hand Only"@, 2);
    crate::text::lemma_replace_mismatch_at_start(s0, "¤(co)"@, "Combat Only"@, 2);
    crate::text::lemma_replace_mismatch_at_start(s0, "¤(any_phase)"@, "Any Phase"@, 2);
    crate::text::lemma_replace_mismatch_at_start(s0, "¤(flip)"@, "Flip"@, 2);
    crate::text::lemma_replace_mismatch_at_start(s0, "¤(quick)"@, "Quick"@, 2);
    crate::text::lemma_replace_mismatch_at_start(s0, "¤(instant)"@, "Instant"@, 2);
    crate::text::lemma_replace_mismatch_at_start(s0, "¤(passing)"@, "Passing"@, 2);
    crate::text::lemma_replace_mismatch_at_start(s0, "¤(Choose_your_c)"@, "Choose a card you control"@, 2);
    crate::text::lemma_replace_mismatch_at_start(s0, "¤(choose_your_c)"@, "choose a card you control"@, 2);
    crate::text::lemma_replace_mismatch_at_start(s0, "¤(Boost)"@, "Boost"@, 2);
    crate::text::lemma_replace_mismatch_at_start(s0, "¤(Boost)"@, "boost"@, 2);
    crate::text::lemma_replace_mismatch_at_start(s0, "¤(I have)"@, "This card has"@, 2);
    crate::text::lemma_replace_mismatch_at_start(s0, "¤(i have)"@, "this card has"@, 2);
    crate::text::lemma_replace_mismatch_at_start(s0, "¤(C_to_lane)"@, "Card's lane"@, 2);
    crate::text::lemma_replace_mismatch_at_start(s0, "¤(c_to_lane)"@, "card's lane"@, 2);
    crate::text::lemma_replace_mismatch_at_start(s0, "¤(Choose_your_pos)"@, "Choose a position on your board"@, 2);
    crate::text::lemma_replace_mismatch_at_start(s0, "¤(choose_your_pos)"@, "choose a position on your board"@, 2);
    crate::text::lemma_replace_mismatch_at_start(s0, "¤(Choose_your_r)"@, "Choose one of your reserves"@, 2);
    crate::text::lemma_replace_mismatch_at_start(s0, "¤(choose_your_r)"@, "choose one of your reserves"@, 2);
    crate::text::lemma_replace_mismatch_at_start(s0, "¤(Choose_your_cpos)"@, "Choose one of your field positions"@, 2);
    crate::text::lemma_replace_mismatch_at_start(s0, "¤(choose_your_cpos)"@, "choose one of your field positions"@, 2);
    crate::text::lemma_replace_mismatch_at_start(s0, "¤(Pos_to_lane)"@, "Position's lane"@, 2);
    crate::text::lemma_replace_mismatch_at_start(s0, "¤(pos_to_lane)"@, "position's lane"@, 2);
    crate::text::lemma_replace_mismatch_at_start(s0, "¤(Move_me_to_r)"@, "Move this card to the chosen reserve"@, 2);
    crate::text::lemma_replace_mismatch_at_start(s0, "¤(move_me_to_r)"@, "move this card to the chosen reserve"@, 3);
    crate::text::lemma_replace_mismatch_at_start(s0, "¤(Attach_me_to_chosen)"@, "Attach this card to the chosen card"@, 2);
    crate::text::lemma_replace_mismatch_at_start(s0, "¤(attach_me_to_chosen)"@, "attach this card to the chosen card"@, 2);
    crate::text::lemma_replace_mismatch_at_start(s0, "¤(Xp)"@, "XP"@, 2);
    crate::text::lemma_replace_mismatch_at_start(s0, "¤(xp)"@, "XP"@, 2);
    crate::text::lemma_replace_mismatch_at_start(s0, "¤(Mana)"@, "Mana"@, 2);
    crate::text::lemma_replace_mismatch_at_start(s0, "¤(mana)"@, "mana"@, 3);
    crate::text::lemma_replace_mismatch_at_start(s0, "¤(Me)"@, "This card"@, 2);
    crate::text::lemma_replace_mismatch_at_start(s0, "¤(me)"@, "this card"@, 3);
    crate::text::lemma_replace_mismatch_at_start(s0, "¤(I)"@, "This card"@, 2);
    crate::text::lemma_replace_mismatch_at_start(s0, "¤(I am)"@, "This card is"@, 2);
    crate::text::lemma_replace_mismatch_at_start(s0, "¤(i)"@, "this card"@, 2);
    crate::text::lemma_replace_mismatch_at_start(s0, "¤(i am)"@, "this card is"@, 2);
    assert(s0.subrange(0, "¤(my)"@.len() as int) =~= "¤(my)"@);
    crate::text::lemma_replace_at_start(s0, "¤(my)"@, "this card's"@);
    let s1 = "this card's"@ + seq![' '] + t;
    assert(s0.subrange("¤(my)"@.len() as int, s0.len() as int) =~= seq![' '] + t);
    assert("this card's"@ + (seq![' '] + t) =~= s1);
    crate::text::lemma_no_mark_joined("this card's"@, t);
    crate::text::lemma_replace_absent(s1, "¤(My)"@, "This card's"@);
    crate::text::lemma_replace_absent(s1, "¤(Set_my_pos_to_chosen)"@, "Move this card to the chosen position"@);
    crate::text::lemma_replace_absent(s1, "¤(set_my_pos_to_chosen)"@, "move this card to the chosen position"@);
}

/// `¤(My)`, then a space and a text without `¤`: the command becomes `This card's`.
proof fn lemma_bracket_command_37(t: Seq<char>)
    requires
        !t.contains('\u{a4}'),
    ensures
        replace_fixed_bracket("¤(My)"@ + seq![' '] + t) == "This card's"@ + seq![' '] + t,
{
    reveal_strlit("Any Phase");
    reveal_strlit("Attach this card to the chosen card");
    reveal_strlit("Boost");
    reveal_strlit("Card's lane");
    reveal_strlit("Choose a card you control");
    reveal_strlit("Choose a position on your board");
    reveal_strlit("Choose one of your field positions");
    reveal_strlit("Choose one of your reserves");
    reveal_strlit("Combat Only");
    reveal_strlit("Flip");
    reveal_strlit("Hand Only");
    reveal_strlit("Instant");
    reveal_strlit("Mana");
    reveal_strlit("Move this card to the chosen position");
    reveal_strlit("Move this card to the chosen reserve");
    reveal_strlit("Passing");
    reveal_strlit("Position's lane");
    reveal_strlit("Quick");
    reveal_strlit("This card");
    reveal_strlit("This card has");
    reveal_strlit("This card is");
    reveal_strlit("This card's");
    reveal_strlit("XP");
    reveal_strlit("attach this card to the chosen card");
    reveal_strlit("boost");
    reveal_strlit("card's lane");
    reveal_strlit("choose a card you control");
    reveal_strlit("choose a position on your board");
    reveal_strlit("choose one of your field positions");
    reveal_strlit("choose one of your reserves");
    reveal_strlit("mana");
    reveal_strlit("move this card to the chosen position");
    reveal_strlit("move this card to the chosen reserve");
    reveal_strlit("position's lane");
    reveal_strlit("this card");
    reveal_strlit("this card has");
    reveal_strlit("this card is");
    reveal_strlit("this card's");
    reveal_strlit("¤(Attach_me_to_chosen)");
    reveal_strlit("¤(Boost)");
    reveal_strlit("¤(C_to_lane)");
    reveal_strlit("¤(Choose_your_c)");
    reveal_strlit("¤(Choose_your_cpos)");
    reveal_strlit("¤(Choose_your_pos)");
    reveal_strlit("¤(Choose_your_r)");
    reveal_strlit("¤(I am)");
    reveal_strlit("¤(I have)");
    reveal_strlit("¤(I)");
    reveal_strlit("¤(Mana)");
    reveal_strlit("¤(Me)");
    reveal_strlit("¤(Move_me_to_r)");
    reveal_strlit("¤(My)");
    reveal_strlit("¤(Pos_to_lane)");
    reveal_strlit("¤(Set_my_pos_to_chosen)");
    reveal_strlit("¤(Xp)");
    reveal_strlit("¤(any_phase)");
    reveal_strlit("¤(attach_me_to_chosen)");
    reveal_strlit("¤(c_to_lane)");
    reveal_strlit("¤(choose_your_c)");
    reveal_strlit("¤(choose_your_cpos)");
    reveal_strlit("¤(choose_your_pos)");
    reveal_strlit("¤(choose_your_r)");
    reveal_strlit("¤(co)");
    reveal_strlit("¤(flip)");
    reveal_strlit("¤(ho)");
    reveal_strlit("¤(i am)");
    reveal_strlit("¤(i have)");
    reveal_strlit("¤(i)");
    reveal_strlit("¤(instant)");
    reveal_strlit("¤(mana)");
    reveal_strlit("¤(me)");
    reveal_strlit("¤(move_me_to_r)");
    reveal_strlit("¤(my)");
    reveal_strlit("¤(passing)");
    reveal_strlit("¤(pos_to_lane)");
    reveal_strlit("¤(quick)");
    reveal_strlit("¤(set_my_pos_to_chosen)");
    reveal_strlit("¤(xp)");
    let s0 = "¤(My)"@ + seq![' '] + t;
    crate::text::lemma_mark_only_at_start("¤(My)"@, t);
    crate::text::lemma_replace_mismatch_at_start(s0, "¤(ho)"@, "Hand Only"@, 2);
    crate::text::lemma_replace_mismatch_at_start(s0, "¤(co)"@, "Combat Only"@, 2);
    crate::text::lemma_replace_mismatch_at_start(s0, "¤(any_phase)"@, "Any Phase"@, 2);
    crate::text::lemma_replace_mismatch_at_start(s0, "¤(flip)"@, "Flip"@, 2);
    crate::text::lemma_replace_mismatch_at_start(s0, "¤(quick)"@, "Quick"@, 2);
    crate::text::lemma_replace_mismatch_at_start(s0, "¤(instant)"@, "Instant"@, 2);
    crate::text::lemma_replace_mismatch_at_start(s0, "¤(passing)"@, "Passing"@, 2);
    crate::text::lemma_replace_mismatch_at_start(s0, "¤(Choose_your_c)"@, "Choose a card you control"@, 2);
    crate::text::lemma_replace_mismatch_at_start(s0, "¤(choose_your_c)"@, "choose a card you control"@, 2);
    crate::text::lemma_replace_mismatch_at_start(s0, "¤(Boost)"@, "Boost"@, 2);
    crate::text::lemma_replace_mismatch_at_start(s0, "¤(Boost)"@, "boost"@, 2);
    crate::text::lemma_replace_mismatch_at_start(s0, "¤(I have)"@, "This card has"@, 2);
    crate::text::lemma_replace_mismatch_at_start(s0, "¤(i have)"@, "this card has"@, 2);
    crate::text::lemma_replace_mismatch_at_start(s0, "¤(C_to_lane)"@, "Card's lane"@, 2);
    crate::text::lemma_replace_mismatch_at_start(s0, "¤(c_to_lane)"@, "card's lane"@, 2);
    crate::text::lemma_replace_mismatch_at_start(s0, "¤(Choose_your_pos)"@, "Choose a position on your board"@, 2);
    crate::text::lemma_replace_mismatch_at_start(s0, "¤(choose_your_pos)"@, "choose a position on your board"@, 2);
    crate::text::lemma_replace_mismatch_at_start(s0, "¤(Choose_your_r)"@, "Choose one of your reserves"@, 2);
    crate::text::lemma_replace_mismatch_at_start(s0, "¤(choose_your_r)"@, "choose one of your reserves"@, 2);
    crate::text::lemma_replace_mismatch_at_start(s0, "¤(Choose_your_cpos)"@, "Choose one of your field positions"@, 2);
    crate::text::lemma_replace_mismatch_at_start(s0, "¤(choose_your_cpos)"@, "choose one of your field positions"@, 2);
    crate::text::lemma_replace_mismatch_at_start(s0, "¤(Pos_to_lane)"@, "Position's lane"@, 2);
    crate::text::lemma_replace_mismatch_at_start(s0, "¤(pos_to_lane)"@, "position's lane"@, 2);
    crate::text::lemma_replace_mismatch_at_start(s0, "¤(Move_me_to_r)"@, "Move this card to the chosen reserve"@, 3);
    crate::text::lemma_replace_mismatch_at_start(s0, "¤(move_me_to_r)"@, "move this card to the chosen reserve"@, 2);
    crate::text::lemma_replace_mismatch_at_start(s0, "¤(Attach_me_to_chosen)"@, "Attach this card to the chosen card"@, 2);
    crate::text::lemma_replace_mismatch_at_start(s0, "¤(attach_me_to_chosen)"@, "attach this card to the chosen card"@, 2);
    crate::text::lemma_replace_mismatch_at_start(s0, "¤(Xp)"@, "XP"@, 2);
    crate::text::lemma_replace_mismatch_at_start(s0, "¤(xp)"@, "XP"@, 2);
    crate::text::lemma_replace_mismatch_at_start(s0, "¤(Mana)"@, "Mana"@, 3);
    crate::text::lemma_replace_mismatch_at_start(s0, "¤(mana)"@, "mana"@, 2);
    crate::text::lemma_replace_mismatch_at_start(s0, "¤(Me)"@, "This card"@, 3);
    crate::text::lemma_replace_mismatch_at_start(s0, "¤(me)"@, "this card"@, 2);
    crate::text::lemma_replace_mismatch_at_start(s0, "¤(I)"@, "This card"@, 2);
    crate::text::lemma_replace_mismatch_at_start(s0, "¤(I am)"@, "This card is"@, 2);
    crate::text::lemma_replace_mismatch_at_start(s0, "¤(i)"@, "this card"@, 2);
    crate::text::lemma_replace_mismatch_at_start(s0, "¤(i am)"@, "this card is"@, 2);
    crate::text::lemma_replace_mismatch_at_start(s0, "¤(my)"@, "this card's"@, 2);
    assert(s0.subrange(0, "¤(My)"@.len() as int) =~= "¤(My)"@);
    crate::text::lemma_replace_at_start(s0, "¤(My)"@, "This card's"@);
    let s1 = "This card's"@ + seq![' '] + t;
    assert(s0.subrange("¤(My)"@.len() as int, s0.len() as int) =~= seq![' '] + t);
    assert("This card's"@ + (seq![' '] + t) =~= s1);
    crate::text::lemma_no_mark_joined("This card's"@, t);
    crate::text::lemma_replace_absent(s1, "¤(Set_my_pos_to_chosen)"@, "Move this card to the chosen position"@);
    crate::text::lemma_replace_absent(s1, "¤(set_my_pos_to_chosen)"@, "move this card to the chosen position"@);
}

/// `¤(Set_my_pos_to_chosen)`, then a space and a text without `¤`: the command becomes `Move this card to the chosen position`.
proof fn lemma_bracket_command_38(t: Seq<char>)
    requires
        !t.contains('\u{a4}'),
    ensures
        replace_fixed_bracket("¤(Set_my_pos_to_chosen)"@ + seq![' '] + t) == "Move this card to the chosen position"@ + seq![' '] + t,
{
    reveal_strlit("Any Phase");
    reveal_strlit("Attach this card to the chosen card");
    reveal_strlit("Boost");
    reveal_strlit("Card's lane");
    reveal_strlit("Choose a card you control");
    reveal_strlit("Choose a position on your board");
    reveal_strlit("Choose one of your field positions");
    reveal_strlit("Choose one of your reserves");
    reveal_strlit("Combat Only");
    reveal_strlit("Flip");
    reveal_strlit("Hand Only");
    reveal_strlit("Instant");
    reveal_strlit("Mana");
    reveal_strlit("Move this card to the chosen position");
    reveal_strlit("Move this card to the chosen reserve");
    reveal_strlit("Passing");
    reveal_strlit("Position's lane");
    reveal_strlit("Quick");
    reveal_strlit("This card");
    reveal_strlit("This card has");
    reveal_strlit("This card is");
    reveal_strlit("This card's");
    reveal_strlit("XP");
    reveal_strlit("attach this card to the chosen card");
    reveal_strlit("boost");
    reveal_strlit("card's lane");
    reveal_strlit("choose a card you control");
    reveal_strlit("choose a position on your board");
    reveal_strlit("choose one of your field positions");
    reveal_strlit("choose one of your reserves");
    reveal_strlit("mana");
    reveal_strlit("move this card to the chosen position");
    reveal_strlit("move this card to the chosen reserve");
    reveal_strlit("position's lane");
    reveal_strlit("this card");
    reveal_strlit("this card has");
    reveal_strlit("this card is");
    reveal_strlit("this card's");
    reveal_strlit("¤(Attach_me_to_chosen)");
    reveal_strlit("¤(Boost)");
    reveal_strlit("¤(C_to_lane)");
    reveal_strlit("¤(Choose_your_c)");
    reveal_strlit("¤(Choose_your_cpos)");
    reveal_strlit("¤(Choose_your_pos)");
    reveal_strlit("¤(Choose_your_r)");
    reveal_strlit("¤(I am)");
    reveal_strlit("¤(I have)");
    reveal_strlit("¤(I)");
    reveal_strlit("¤(Mana)");
    reveal_strlit("¤(Me)");
    reveal_strlit("¤(Move_me_to_r)");
    reveal_strlit("¤(My)");
    reveal_strlit("¤(Pos_to_lane)");
    reveal_strlit("¤(Set_my_pos_to_chosen)");
    reveal_strlit("¤(Xp)");
    reveal_strlit("¤(any_phase)");
    reveal_strlit("¤(attach_me_to_chosen)");
    reveal_strlit("¤(c_to_lane)");
    reveal_strlit("¤(choose_your_c)");
    reveal_strlit("¤(choose_your_cpos)");
    reveal_strlit("¤(choose_your_pos)");
    reveal_strlit("¤(choose_your_r)");
    reveal_strlit("¤(co)");
    reveal_strlit("¤(flip)");
    reveal_strlit("¤(ho)");
    reveal_strlit("¤(i am)");
    reveal_strlit("¤(i have)");
    reveal_strlit("¤(i)");
    reveal_strlit("¤(instant)");
    reveal_strlit("¤(mana)");
    reveal_strlit("¤(me)");
    reveal_strlit("¤(move_me_to_r)");
    reveal_strlit("¤(my)");
    reveal_strlit("¤(passing)");
    reveal_strlit("¤(pos_to_lane)");
    reveal_strlit("¤(quick)");
    reveal_strlit("¤(set_my_pos_to_chosen)");
    reveal_strlit("¤(xp)");
    let s0 = "¤(Set_my_pos_to_chosen)"@ + seq![' '] + t;
    crate::text::lemma_mark_only_at_start("¤(Set_my_pos_to_chosen)"@, t);
    crate::text::lemma_replace_mismatch_at_start(s0, "¤(ho)"@, "Hand Only"@, 2);
    crate::text::lemma_replace_mismatch_at_start(s0, "¤(co)"@, "Combat Only"@, 2);
    crate::text::lemma_replace_mismatch_at_start(s0, "¤(any_phase)"@, "Any Phase"@, 2);
    crate::text::lemma_replace_mismatch_at_start(s0, "¤(flip)"@, "Flip"@, 2);
    crate::text::lemma_replace_mismatch_at_start(s0, "¤(quick)"@, "Quick"@, 2);
    crate::text::lemma_replace_mismatch_at_start(s0, "¤(instant)"@, "Instant"@, 2);
    crate::text::lemma_replace_mismatch_at_start(s0, "¤(passing)"@, "Passing"@, 2);
    crate::text::lemma_replace_mismatch_at_start(s0, "¤(Choose_your_c)"@, "Choose a card you control"@, 2);
    crate::text::lemma_replace_mismatch_at_start(s0, "¤(choose_your_c)"@, "choose a card you control"@, 2);
    crate::text::lemma_replace_mismatch_at_start(s0, "¤(Boost)"@, "Boost"@, 2);
    crate::text::lemma_replace_mismatch_at_start(s0, "¤(Boost)"@, "boost"@, 2);
    crate::text::lemma_replace_mismatch_at_start(s0, "¤(I have)"@, "This card has"@, 2);
    crate::text::lemma_replace_mismatch_at_start(s0, "¤(i have)"@, "this card has"@, 2);
    crate::text::lemma_replace_mismatch_at_start(s0, "¤(C_to_lane)"@, "Card's lane"@, 2);
    crate::text::lemma_replace_mismatch_at_start(s0, "¤(c_to_lane)"@, "card's lane"@, 2);
    crate::text::lemma_replace_mismatch_at_start(s0, "¤(Choose_your_pos)"@, "Choose a position on your board"@, 2);
    crate::text::lemma_replace_mismatch_at_start(s0, "¤(choose_your_pos)"@, "choose a position on your board"@, 2);
    crate::text::lemma_replace_mismatch_at_start(s0, "¤(Choose_your_r)"@, "Choose one of your reserves"@, 2);
    crate::text::lemma_replace_mismatch_at_start(s0, "¤(choose_your_r)"@, "choose one of your reserves"@, 2);
    crate::text::lemma_replace_mismatch_at_start(s0, "¤(Choose_your_cpos)"@, "Choose one of your field positions"@, 2);
    crate::text::lemma_replace_mismatch_at_start(s0, "¤(choose_your_cpos)"@, "choose one of your field positions"@, 2);
    crate::text::lemma_replace_mismatch_at_start(s0, "¤(Pos_to_lane)"@, "Position's lane"@, 2);
    crate::text::lemma_replace_mismatch_at_start(s0, "¤(pos_to_lane)"@, "position's lane"@, 2);
    crate::text::lemma_replace_mismatch_at_start(s0, "¤(Move_me_to_r)"@, "Move this card to the chosen reserve"@, 2);
    crate::text::lemma_replace_mismatch_at_start(s0, "¤(move_me_to_r)"@, "move this card to the chosen reserve"@, 2);
    crate::text::lemma_replace_mismatch_at_start(s0, "¤(Attach_me_to_chosen)"@, "Attach this card to the chosen card"@, 2);
    crate::text::lemma_replace_mismatch_at_start(s0, "¤(attach_me_to_chosen)"@, "attach this card to the chosen card"@, 2);
    crate::text::lemma_replace_mismatch_at_start(s0, "¤(Xp)"@, "XP"@, 2);
    crate::text::lemma_replace_mismatch_at_start(s0, "¤(xp)"@, "XP"@, 2);
    crate::text::lemma_replace_mismatch_at_start(s0, "¤(Mana)"@, "Mana"@, 2);
    crate::text::lemma_replace_mismatch_at_start(s0, "¤(mana)"@, "mana"@, 2);
    crate::text::lemma_replace_mismatch_at_start(s0, "¤(Me)"@, "This card"@, 2);
    crate::text::lemma_replace_mismatch_at_start(s0, "¤(me)"@, "this card"@, 2);
    crate::text::lemma_replace_mismatch_at_start(s0, "¤(I)"@, "This card"@, 2);
    crate::text::lemma_replace_mismatch_at_start(s0, "¤(I am)"@, "This card is"@, 2);
    crate::text::lemma_replace_mismatch_at_start(s0, "¤(i)"@, "this card"@, 2);
    crate::text::lemma_replace_mismatch_at_start(s0, "¤(i am)"@, "this card is"@, 2);
    crate::text::lemma_replace_mismatch_at_start(s0, "¤(my)"@, "this card's"@, 2);
    crate::text::lemma_replace_mismatch_at_start(s0, "¤(My)"@, "This card's"@, 2);
    assert(s0.subrange(0, "¤(Set_my_pos_to_chosen)"@.len() as int) =~= "¤(Set_my_pos_to_chosen)"@);
    crate::text::lemma_replace_at_start(s0, "¤(Set_my_pos_to_chosen)"@, "Move this card to the chosen position"@);
    let s1 = "Move this card to the chosen position"@ + seq![' '] + t;
    assert(s0.subrange("¤(Set_my_pos_to_chosen)"@.len() as int, s0.len() as int) =~= seq![' '] + t);
    assert("Move this card to the chosen position"@ + (seq![' '] + t) =~= s1);
    crate::text::lemma_no_mark_joined("Move this card to the chosen position"@, t);
    crate::text::lemma_replace_absent(s1, "¤(set_my_pos_to_chosen)"@, "move this card to the chosen position"@);
}

/// `¤(set_my_pos_to_chosen)`, then a space and a text without `¤`: the command becomes `move this card to the chosen position`.
proof fn lemma_bracket_command_39(t: Seq<char>)
    requires
        !t.contains('\u{a4}'),
    ensures
        replace_fixed_bracket("¤(set_my_pos_to_chosen)"@ + seq![' '] + t) == "move this card to the chosen position"@ + seq![' '] + t,
{
    reveal_strlit("Any Phase");
    reveal_strlit("Attach this card to the chosen card");
    reveal_strlit("Boost");
    reveal_strlit("Card's lane");
    reveal_strlit("Choose a card you control");
    reveal_strlit("Choose a position on your board");
    reveal_strlit("Choose one of your field positions");
    reveal_strlit("Choose one of your reserves");
    reveal_strlit("Combat Only");
    reveal_strlit("Flip");
    reveal_strlit("Hand Only");
    reveal_strlit("Instant");
    reveal_strlit("Mana");
    reveal_strlit("Move this card to the chosen position");
    reveal_strlit("Move this card to the chosen reserve");
    reveal_strlit("Passing");
    reveal_strlit("Position's lane");
    reveal_strlit("Quick");
    reveal_strlit("This card");
    reveal_strlit("This card has");
    reveal_strlit("This card is");
    reveal_strlit("This card's");
    reveal_strlit("XP");
    reveal_strlit("attach this card to the chosen card");
    reveal_strlit("boost");
    reveal_strlit("card's lane");
    reveal_strlit("choose a card you control");
    reveal_strlit("choose a position on your board");
    reveal_strlit("choose one of your field positions");
    reveal_strlit("choose one of your reserves");
    reveal_strlit("mana");
    reveal_strlit("move this card to the chosen position");
    reveal_strlit("move this card to the chosen reserve");
    reveal_strlit("position's lane");
    reveal_strlit("this card");
    reveal_strlit("this card has");
    reveal_strlit("this card is");
    reveal_strlit("this card's");
    reveal_strlit("¤(Attach_me_to_chosen)");
    reveal_strlit("¤(Boost)");
    reveal_strlit("¤(C_to_lane)");
    reveal_strlit("¤(Choose_your_c)");
    reveal_strlit("¤(Choose_your_cpos)");
    reveal_strlit("¤(Choose_your_pos)");
    reveal_strlit("¤(Choose_your_r)");
    reveal_strlit("¤(I am)");
    reveal_strlit("¤(I have)");
    reveal_strlit("¤(I)");
    reveal_strlit("¤(Mana)");
    reveal_strlit("¤(Me)");
    reveal_strlit("¤(Move_me_to_r)");
    reveal_strlit("¤(My)");
    reveal_strlit("¤(Pos_to_lane)");
    reveal_strlit("¤(Set_my_pos_to_chosen)");
    reveal_strlit("¤(Xp)");
    reveal_strlit("¤(any_phase)");
    reveal_strlit("¤(attach_me_to_chosen)");
    reveal_strlit("¤(c_to_lane)");
    reveal_strlit("¤(choose_your_c)");
    reveal_strlit("¤(choose_your_cpos)");
    reveal_strlit("¤(choose_your_pos)");
    reveal_strlit("¤(choose_your_r)");
    reveal_strlit("¤(co)");
    reveal_strlit("¤(flip)");
    reveal_strlit("¤(ho)");
    reveal_strlit("¤(i am)");
    reveal_strlit("¤(i have)");
    reveal_strlit("¤(i)");
    reveal_strlit("¤(instant)");
    reveal_strlit("¤(mana)");
    reveal_strlit("¤(me)");
    reveal_strlit("¤(move_me_to_r)");
    reveal_strlit("¤(my)");
    reveal_strlit("¤(passing)");
    reveal_strlit("¤(pos_to_lane)");
    reveal_strlit("¤(quick)");
    reveal_strlit("¤(set_my_pos_to_chosen)");
    reveal_strlit("¤(xp)");
    let s0 = "¤(set_my_pos_to_chosen)"@ + seq![' '] + t;
    crate::text::lemma_mark_only_at_start("¤(set_my_pos_to_chosen)"@, t);
    crate::text::lemma_replace_mismatch_at_start(s0, "¤(ho)"@, "Hand Only"@, 2);
    crate::text::lemma_replace_mismatch_at_start(s0, "¤(co)"@, "Combat Only"@, 2);
    crate::text::lemma_replace_mismatch_at_start(s0, "¤(any_phase)"@, "Any Phase"@, 2);
    crate::text::lemma_replace_mismatch_at_start(s0, "¤(flip)"@, "Flip"@, 2);
    crate::text::lemma_replace_mismatch_at_start(s0, "¤(quick)"@, "Quick"@, 2);
    crate::text::lemma_replace_mismatch_at_start(s0, "¤(instant)"@, "Instant"@, 2);
    crate::text::lemma_replace_mismatch_at_start(s0, "¤(passing)"@, "Passing"@, 2);
    crate::text::lemma_replace_mismatch_at_start(s0, "¤(Choose_your_c)"@, "Choose a card you control"@, 2);
    crate::text::lemma_replace_mismatch_at_start(s0, "¤(choose_your_c)"@, "choose a card you control"@, 2);
    crate::text::lemma_replace_mismatch_at_start(s0, "¤(Boost)"@, "Boost"@, 2);
    crate::text::lemma_replace_mismatch_at_start(s0, "¤(Boost)"@, "boost"@, 2);
    crate::text::lemma_replace_mismatch_at_start(s0, "¤(I have)"@, "This card has"@, 2);
    crate::text::lemma_replace_mismatch_at_start(s0, "¤(i have)"@, "this card has"@, 2);
    crate::text::lemma_replace_mismatch_at_start(s0, "¤(C_to_lane)"@, "Card's lane"@, 2);
    crate::text::lemma_replace_mismatch_at_start(s0, "¤(c_to_lane)"@, "card's lane"@, 2);
    crate::text::lemma_replace_mismatch_at_start(s0, "¤(Choose_your_pos)"@, "Choose a position on your board"@, 2);
    crate::text::lemma_replace_mismatch_at_start(s0, "¤(choose_your_pos)"@, "choose a position on your board"@, 2);
    crate::text::lemma_replace_mismatch_at_start(s0, "¤(Choose_your_r)"@, "Choose one of your reserves"@, 2);
    crate::text::lemma_replace_mismatch_at_start(s0, "¤(choose_your_r)"@, "choose one of your reserves"@, 2);
    crate::text::lemma_replace_mismatch_at_start(s0, "¤(Choose_your_cpos)"@, "Choose one of your field positions"@, 2);
    crate::text::lemma_replace_mismatch_at_start(s0, "¤(choose_your_cpos)"@, "choose one of your field positions"@, 2);
    crate::text::lemma_replace_mismatch_at_start(s0, "¤(Pos_to_lane)"@, "Position's lane"@, 2);
    crate::text::lemma_replace_mismatch_at_start(s0, "¤(pos_to_lane)"@, "position's lane"@, 2);
    crate::text::lemma_replace_mismatch_at_start(s0, "¤(Move_me_to_r)"@, "Move this card to the chosen reserve"@, 2);
    crate::text::lemma_replace_mismatch_at_start(s0, "¤(move_me_to_r)"@, "move this card to the chosen reserve"@, 2);
    crate::text::lemma_replace_mismatch_at_start(s0, "¤(Attach_me_to_chosen)"@, "Attach this card to the chosen card"@, 2);
    crate::text::lemma_replace_mismatch_at_start(s0, "¤(attach_me_to_chosen)"@, "attach this card to the chosen card"@, 2);
    crate::text::lemma_replace_mismatch_at_start(s0, "¤(Xp)"@, "XP"@, 2);
    crate::text::lemma_replace_mismatch_at_start(s0, "¤(xp)"@, "XP"@, 2);
    crate::text::lemma_replace_mismatch_at_start(s0, "¤(Mana)"@, "Mana"@, 2);
    crate::text::lemma_replace_mismatch_at_start(s0, "¤(mana)"@, "mana"@, 2);
    crate::text::lemma_replace_mismatch_at_start(s0, "¤(Me)"@, "This card"@, 2);
    crate::text::lemma_replace_mismatch_at_start(s0, "¤(me)"@, "this card"@, 2);
    crate::text::lemma_replace_mismatch_at_start(s0, "¤(I)"@, "This card"@, 2);
    crate::text::lemma_replace_mismatch_at_start(s0, "¤(I am)"@, "This card is"@, 2);
    crate::text::lemma_replace_mismatch_at_start(s0, "¤(i)"@, "this card"@, 2);
    crate::text::lemma_replace_mismatch_at_start(s0, "¤(i am)"@, "this card is"@, 2);
    crate::text::lemma_replace_mismatch_at_start(s0, "¤(my)"@, "this card's"@, 2);
    crate::text::lemma_replace_mismatch_at_start(s0, "¤(My)"@, "This card's"@, 2);
    crate::text::lemma_replace_mismatch_at_start(s0, "¤(Set_my_pos_to_chosen)"@, "Move this card to the chosen position"@, 2);
    assert(s0.subrange(0, "¤(set_my_pos_to_chosen)"@.len() as int) =~= "¤(set_my_pos_to_chosen)"@);
    crate::text::lemma_replace_at_start(s0, "¤(set_my_pos_to_chosen)"@, "move this card to the chosen position"@);
    let s1 = "move this card to the chosen position"@ + seq![' '] + t;
    assert(s0.subrange("¤(set_my_pos_to_chosen)"@.len() as int, s0.len() as int) =~= seq![' '] + t);
    assert("move this card to the chosen position"@ + (seq![' '] + t) =~= s1);
    crate::text::lemma_no_mark_joined("move this card to the chosen position"@, t);
}

/// Each fixed `¤(name)` command becomes its own word: a command, then a
/// space and any text without `¤`, gives the command's word, then the same
/// space and text.
pub proof fn lemma_fixed_bracket_commands_become_words(t: Seq<char>)
    requires
        !t.contains('\u{a4}'),
    ensures
        replace_fixed_bracket("¤(ho)"@ + seq![' '] + t) == "Hand Only"@ + seq![' '] + t,
        replace_fixed_bracket("¤(co)"@ + seq![' '] + t) == "Combat Only"@ + seq![' '] + t,
        replace_fixed_bracket("¤(any_phase)"@ + seq![' '] + t) == "Any Phase"@ + seq![' '] + t,
        replace_fixed_bracket("¤(flip)"@ + seq![' '] + t) == "Flip"@ + seq![' '] + t,
        replace_fixed_bracket("¤(quick)"@ + seq![' '] + t) == "Quick"@ + seq![' '] + t,
        replace_fixed_bracket("¤(instant)"@ + seq![' '] + t) == "Instant"@ + seq![' '] + t,
        replace_fixed_bracket("¤(passing)"@ + seq![' '] + t) == "Passing"@ + seq![' '] + t,
        replace_fixed_bracket("¤(Choose_your_c)"@ + seq![' '] + t) == "Choose a card you control"@ + seq![' '] + t,
        replace_fixed_bracket("¤(choose_your_c)"@ + seq![' '] + t) == "choose a card you control"@ + seq![' '] + t,
        replace_fixed_bracket("¤(Boost)"@ + seq![' '] + t) == "Boost"@ + seq![' '] + t,
        replace_fixed_bracket("¤(I have)"@ + seq![' '] + t) == "This card has"@ + seq![' '] + t,
        replace_fixed_bracket("¤(i have)"@ + seq![' '] + t) == "this card has"@ + seq![' '] + t,
        replace_fixed_bracket("¤(C_to_lane)"@ + seq![' '] + t) == "Card's lane"@ + seq![' '] + t,
        replace_fixed_bracket("¤(c_to_lane)"@ + seq![' '] + t) == "card's lane"@ + seq![' '] + t,
        replace_fixed_bracket("¤(Choose_your_pos)"@ + seq![' '] + t) == "Choose a position on your board"@ + seq![' '] + t,
        replace_fixed_bracket("¤(choose_your_pos)"@ + seq![' '] + t) == "choose a position on your board"@ + seq![' '] + t,
        replace_fixed_bracket("¤(Choose_your_r)"@ + seq![' '] + t) == "Choose one of your reserves"@ + seq![' '] + t,
        replace_fixed_bracket("¤(choose_your_r)"@ + seq![' '] + t) == "choose one of your reserves"@ + seq![' '] + t,
        replace_fixed_bracket("¤(Choose_your_cpos)"@ + seq![' '] + t) == "Choose one of your field positions"@ + seq![' '] + t,
        replace_fixed_bracket("¤(choose_your_cpos)"@ + seq![' '] + t) == "choose one of your field positions"@ + seq![' '] + t,
        replace_fixed_bracket("¤(Pos_to_lane)"@ + seq![' '] + t) == "Position's lane"@ + seq![' '] + t,
        replace_fixed_bracket("¤(pos_to_lane)"@ + seq![' '] + t) == "position's lane"@ + seq![' '] + t,
        replace_fixed_bracket("¤(Move_me_to_r)"@ + seq![' '] + t) == "Move this card to the chosen reserve"@ + seq![' '] + t,
        replace_fixed_bracket("¤(move_me_to_r)"@ + seq![' '] + t) == "move this card to the chosen reserve"@ + seq![' '] + t,
        replace_fixed_bracket("¤(Attach_me_to_chosen)"@ + seq![' '] + t) == "Attach this card to the chosen card"@ + seq![' '] + t,
        replace_fixed_bracket("¤(attach_me_to_chosen)"@ + seq![' '] + t) == "attach this card to the chosen card"@ + seq![' '] + t,
        replace_fixed_bracket("¤(Xp)"@ + seq![' '] + t) == "XP"@ + seq![' '] + t,
        replace_fixed_bracket("¤(xp)"@ + seq![' '] + t) == "XP"@ + seq![' '] + t,
        replace_fixed_bracket("¤(Mana)"@ + seq![' '] + t) == "Mana"@ + seq![' '] + t,
        replace_fixed_bracket("¤(mana)"@ + seq![' '] + t) == "mana"@ + seq![' '] + t,
        replace_fixed_bracket("¤(Me)"@ + seq![' '] + t) == "This card"@ + seq![' '] + t,
        replace_fixed_bracket("¤(me)"@ + seq![' '] + t) == "this card"@ + seq![' '] + t,
        replace_fixed_bracket("¤(I)"@ + seq![' '] + t) == "This card"@ + seq![' '] + t,
        replace_fixed_bracket("¤(I am)"@ + seq![' '] + t) == "This card is"@ + seq![' '] + t,
        replace_fixed_bracket("¤(i)"@ + seq![' '] + t) == "this card"@ + seq![' '] + t,
        replace_fixed_bracket("¤(i am)"@ + seq![' '] + t) == "this card is"@ + seq![' '] + t,
        replace_fixed_bracket("¤(my)"@ + seq![' '] + t) == "this card's"@ + seq![' '] + t,
        replace_fixed_bracket("¤(My)"@ + seq![' '] + t) == "This card's"@ + seq![' '] + t,
        replace_fixed_bracket("¤(Set_my_pos_to_chosen)"@ + seq![' '] + t) == "Move this card to the chosen position"@ + seq![' '] + t,
        replace_fixed_bracket("¤(set_my_pos_to_chosen)"@ + seq![' '] + t) == "move this card to the chosen position"@ + seq![' '] + t,
{
    lemma_bracket_command_0(t);
    lemma_bracket_command_1(t);
    lemma_bracket_command_2(t);
    lemma_bracket_command_3(t);
    lemma_bracket_command_4(t);
    lemma_bracket_command_5(t);
    lemma_bracket_command_6(t);
    lemma_bracket_command_7(t);
    lemma_bracket_command_8(t);
    lemma_bracket_command_9(t);
    lemma_bracket_command_10(t);
    lemma_bracket_command_11(t);
    lemma_bracket_command_12(t);
    lemma_bracket_command_13(t);
    lemma_bracket_command_14(t);
    lemma_bracket_command_15(t);
    lemma_bracket_command_16(t);
    lemma_bracket_command_17(t);
    lemma_bracket_command_18(t);
    lemma_bracket_command_19(t);
    lemma_bracket_command_20(t);
    lemma_bracket_command_21(t);
    lemma_bracket_command_22(t);
    lemma_bracket_command_23(t);
    lemma_bracket_command_24(t);
    lemma_bracket_command_25(t);
    lemma_bracket_command_26(t);
    lemma_bracket_command_27(t);
    lemma_bracket_command_28(t);
    lemma_bracket_command_29(t);
    lemma_bracket_command_30(t);
    lemma_bracket_command_31(t);
    lemma_bracket_command_32(t);
    lemma_bracket_command_33(t);
    lemma_bracket_command_34(t);
    lemma_bracket_command_35(t);
    lemma_bracket_command_36(t);
    lemma_bracket_command_37(t);
    lemma_bracket_command_38(t);
    lemma_bracket_command_39(t);
}

/// A text that is one command of kind `k` with a parameter without `)` or
/// `¤`, closed by `))`, expands to the command's words.
proof fn lemma_single_command(k: ParamCommand, p: Seq<char>)
    requires
        !p.contains(')'),
        !p.contains('\u{a4}'),
    ensures
        expand_command(command_marker(k) + p + seq![')', ')'], k) == Some(command_text(k, p)),
{
    let m = command_marker(k);
    let s = m + p + seq![')', ')'];
    lemma_command_marker(k);
    let rest = m.skip(1);
    assert(forall|j: int| 1 <= j < m.len() ==> m[j] != '\u{a4}') by {
        assert forall|j: int| 1 <= j < m.len() implies m[j] != '\u{a4}' by {
            if m[j] == '\u{a4}' {
                assert(rest[j - 1] == '\u{a4}');
                assert(rest.contains('\u{a4}'));
                lemma_count_char_add(seq![m[0]], rest, '\u{a4}');
                assert(m =~= seq![m[0]] + rest);
                lemma_count_char_single(m[0], '\u{a4}');
                count_positive(rest, j - 1);
            }
        }
    }
    assert(m.last() == '(') by {
        reveal_strlit("¤(p_gives_one(");
        reveal_strlit("¤(p_gives_many(");
        reveal_strlit("¤(Cswa(");
        reveal_strlit("¤(cswa(");
        reveal_strlit("¤(Cwa(");
        reveal_strlit("¤(cwa(");
        reveal_strlit("¤(Pay(");
        reveal_strlit("¤(pay(");
        reveal_strlit("¤(Sum(");
        reveal_strlit("¤(Evo(");
        reveal_strlit("¤(Equ(");
        reveal_strlit("¤(Cswsn(");
        reveal_strlit("¤(cswsn(");
        reveal_strlit("¤(Cwsn(");
        reveal_strlit("¤(cwsn(");
        reveal_strlit("¤(Cswosn(");
        reveal_strlit("¤(cswosn(");
        reveal_strlit("¤(Cwosn(");
        reveal_strlit("¤(cwosn(");
    }
    assert(forall|j: int| 1 <= j < s.len() ==> s[j] != '\u{a4}') by {
        assert forall|j: int| 1 <= j < s.len() implies s[j] != '\u{a4}' by {
            if j >= m.len() && j < m.len() + p.len() {
                assert(s[j] == p[j - m.len()]);
            }
        }
    }
    assert(s.subrange(0, m.len() as int) =~= m);
    assert(find_pat_from(s, m, 0) == Some(0int));
    let start = m.len() as int;
    let end: int = (m.len() + p.len()) as int;
    crate::text::lemma_find_char_from(s, ')', start);
    assert(s[end] == ')');
    assert forall|j: int| start <= j < end implies s[j] != ')' by {
        assert(s[j] == p[j - start]);
    }
    assert(find_char_from(s, ')', start) == Some(end));
    assert(s.subrange(start, end) =~= p);
    assert(s[end + 1] == ')');
    let t = command_text(k, p);
    assert(s.subrange(0, 0) + t + s.subrange(end + 2, s.len() as int) =~= t);
    assert(command_step(s, k, 0) == Some(t));
    lemma_no_mark_in_text(k, p);
    crate::text::lemma_find_pat_absent(t, m, 0);
    lemma_count_char_add(m, p, '\u{a4}');
    lemma_count_char_add(m + p, seq![')', ')'], '\u{a4}');
    lemma_no_mark(p);
    lemma_no_mark(seq![')', ')']);
    assert(count_char(s, '\u{a4}') == 1);
    assert(expand_command_steps(t, k, 0) == Some(t));
    assert(expand_command_steps(s, k, 1) == expand_command_steps(t, k, 0));
}

/// A count above zero has an occurrence; one occurrence gives a count above
/// zero.
proof fn count_positive(s: Seq<char>, j: int)
    requires
        0 <= j < s.len(),
        s[j] == '\u{a4}',
    ensures
        count_char(s, '\u{a4}') > 0,
{
    let a = s.subrange(0, j);
    let b = s.subrange(j, s.len() as int);
    assert(s =~= a + b);
    lemma_count_char_add(a, b, '\u{a4}');
    assert(b =~= seq![s[j]] + b.skip(1));
    lemma_count_char_add(seq![s[j]], b.skip(1), '\u{a4}');
    lemma_count_char_single(s[j], '\u{a4}');
}

/// The words of a command whose parameter lacks `¤` lack it too.
proof fn lemma_no_mark_in_text(k: ParamCommand, p: Seq<char>)
    requires
        !p.contains('\u{a4}'),
    ensures
        !command_text(k, p).contains('\u{a4}'),
{
    lemma_no_mark(p);
    lemma_count_command_text(k, p);
    let t = command_text(k, p);
    if t.contains('\u{a4}') {
        let j = choose|j: int| 0 <= j < t.len() && t[j] == '\u{a4}';
        count_positive(t, j);
    }
}

/// Each command of the `¤(name(parameter))` form becomes its own words: a
/// command alone, whose parameter holds no `)` and no `¤`, closed by `))`,
/// expands to the words of its kind around that parameter.
pub proof fn lemma_param_commands_become_words(p: Seq<char>)
    requires
        !p.contains(')'),
        !p.contains('\u{a4}'),
    ensures
        expand_command("¤(p_gives_one("@ + p + seq![')', ')'], ParamCommand::GivesOne) == Some("has the "@ + trim(split_on(p, ',')[0]) + " attribute"@),
        expand_command("¤(p_gives_many("@ + p + seq![')', ')'], ParamCommand::GivesMany) == Some("have the "@ + trim(split_on(p, ',')[0]) + " attribute"@),
        expand_command("¤(Cswa("@ + p + seq![')', ')'], ParamCommand::CardsWith) == Some((if attr_condition_string(p).len() > 0 && attr_condition_string(p)[0] == 'n' { seq!['N'] + attr_condition_string(p).skip(1) } else { attr_condition_string(p) }) + " cards"@),
        expand_command("¤(cswa("@ + p + seq![')', ')'], ParamCommand::CardsWithLower) == Some(attr_condition_string(p) + " cards"@),
        expand_command("¤(Cwa("@ + p + seq![')', ')'], ParamCommand::CardWith) == Some((if attr_condition_string(p).len() > 0 && attr_condition_string(p)[0] == 'n' { seq!['N'] + attr_condition_string(p).skip(1) } else { attr_condition_string(p) }) + " card"@),
        expand_command("¤(cwa("@ + p + seq![')', ')'], ParamCommand::CardWithLower) == Some(attr_condition_string(p) + " card"@),
        expand_command("¤(Pay("@ + p + seq![')', ')'], ParamCommand::Pay) == Some("Pay "@ + p),
        expand_command("¤(pay("@ + p + seq![')', ')'], ParamCommand::PayLower) == Some("pay "@ + p),
        expand_command("¤(Sum("@ + p + seq![')', ')'], ParamCommand::Summon) == Some("Move this card to an empty friendly field position of your choice, then pay "@ + p + "."@),
        expand_command("¤(Evo("@ + p + seq![')', ')'], ParamCommand::Evolve) == Some("Move this card to a friendly reserve of your choice, then pay "@ + p + "."@),
        expand_command("¤(Equ("@ + p + seq![')', ')'], ParamCommand::Equip) == Some("Attach this card to a friendly non-attached card of your choice, then pay "@ + p + "."@),
        expand_command("¤(Cswsn("@ + p + seq![')', ')'], ParamCommand::WordCards) == Some(p + " cards"@),
        expand_command("¤(cswsn("@ + p + seq![')', ')'], ParamCommand::WordCardsLower) == Some(p + " cards"@),
        expand_command("¤(Cwsn("@ + p + seq![')', ')'], ParamCommand::WordCard) == Some(p + " card"@),
        expand_command("¤(cwsn("@ + p + seq![')', ')'], ParamCommand::WordCardLower) == Some(p + " card"@),
        expand_command("¤(Cswosn("@ + p + seq![')', ')'], ParamCommand::NonWordCards) == Some("Non-"@ + p + " cards"@),
        expand_command("¤(cswosn("@ + p + seq![')', ')'], ParamCommand::NonWordCardsLower) == Some("non-"@ + p + " cards"@),
        expand_command("¤(Cwosn("@ + p + seq![')', ')'], ParamCommand::NonWordCard) == Some("Non-"@ + p + " card"@),
        expand_command("¤(cwosn("@ + p + seq![')', ')'], ParamCommand::NonWordCardLower) == Some("non-"@ + p + " card"@),
{
    lemma_single_command(ParamCommand::GivesOne, p);
    lemma_single_command(ParamCommand::GivesMany, p);
    lemma_single_command(ParamCommand::CardsWith, p);
    lemma_single_command(ParamCommand::CardsWithLower, p);
    lemma_single_command(ParamCommand::CardWith, p);
    lemma_single_command(ParamCommand::CardWithLower, p);
    lemma_single_command(ParamCommand::Pay, p);
    lemma_single_command(ParamCommand::PayLower, p);
    lemma_single_command(ParamCommand::Summon, p);
    lemma_single_command(ParamCommand::Evolve, p);
    lemma_single_command(ParamCommand::Equip, p);
    lemma_single_command(ParamCommand::WordCards, p);
    lemma_single_command(ParamCommand::WordCardsLower, p);
    lemma_single_command(ParamCommand::WordCard, p);
    lemma_single_command(ParamCommand::WordCardLower, p);
    lemma_single_command(ParamCommand::NonWordCards, p);
    lemma_single_command(ParamCommand::NonWordCardsLower, p);
    lemma_single_command(ParamCommand::NonWordCard, p);
    lemma_single_command(ParamCommand::NonWordCardLower, p);
}

} // verus!
