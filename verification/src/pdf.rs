//! The text and layout rules of the printed cards: style codes, command
//! expansion in rules text, keyword splitting, narrowing text beside the
//! property symbol, and the placement of cards on pages.
use vstd::prelude::*;

use crate::text::{
    find_pat, find_pat_from, from_chars, lemma_trim_len, lemma_trim_lacks, strs, trim, trim_chars,
    append_chars, count_char, find_char, find_char_from, lemma_count_char_add,
    lemma_count_char_single, lemma_split_on_nonempty, seqs, split_chars, split_on, sub_chars,
    to_chars, to_uppercase, upper_case,
};

verus! {

// ---------------------------------------------------------------------------
// Style codes
// ---------------------------------------------------------------------------

/// A font style.
#[derive(Copy, Clone, Debug, PartialEq, Eq, Structural)]
pub enum TextModifier {
    none,
    bold,
    italic,
    bold_italic,
}

impl TextModifier {
    /// The style code of the font style.
    pub open spec fn code(self) -> Seq<char> {
        match self {
            TextModifier::none => seq![],
            TextModifier::bold => seq!['B'],
            TextModifier::italic => seq!['I'],
            TextModifier::bold_italic => seq!['B', 'I'],
        }
    }

    /// The style code that the PDF writer takes for this font style.
    pub fn into(self) -> (s: &'static str)
        ensures
            s@ == self.code(),
    {
        proof {
            reveal_strlit("");
            reveal_strlit("B");
            reveal_strlit("I");
            reveal_strlit("BI");
        }
        match self {
            TextModifier::none => "",
            TextModifier::bold => "B",
            TextModifier::italic => "I",
            TextModifier::bold_italic => "BI",
        }
    }
}

/// A horizontal text alignment.
#[derive(Copy, Clone, Debug, PartialEq, Eq, Structural)]
pub enum Alignment {
    left,
    center,
    right,
}

impl Alignment {
    /// The alignment code of the alignment.
    pub open spec fn code(self) -> Seq<char> {
        match self {
            Alignment::left => seq!['L'],
            Alignment::center => seq!['C'],
            Alignment::right => seq!['R'],
        }
    }

    /// The alignment code that the PDF writer takes for this alignment.
    pub fn into(self) -> (s: &'static str)
        ensures
            s@ == self.code(),
    {
        proof {
            reveal_strlit("L");
            reveal_strlit("C");
            reveal_strlit("R");
        }
        match self {
            Alignment::left => "L",
            Alignment::center => "C",
            Alignment::right => "R",
        }
    }
}

/// The style of card names.
pub const name_text_mod: TextModifier = TextModifier::bold;

/// The alignment of the line of types.
pub const attr_text_align: Alignment = Alignment::center;

/// The style of the line of types and of flavor text.
pub const attr_text_mod: TextModifier = TextModifier::italic;

/// The font family of all card text.
pub const font_name: &'static str = "Bitter";

/// The alignment of property text.
pub const default_text_align: Alignment = Alignment::left;

/// The style of property text.
pub const default_text_mod: TextModifier = TextModifier::none;

// ---------------------------------------------------------------------------
// Command names
// ---------------------------------------------------------------------------

/// A word with its first character in upper case.
pub open spec fn capitalized(p: Seq<char>) -> Seq<char> {
    upper_case(p[0]) + p.skip(1)
}

/// The words, each followed by a space.
pub open spec fn spaced(ps: Seq<Seq<char>>) -> Seq<char> {
    ps.fold_left(Seq::<char>::empty(), |acc: Seq<char>, p: Seq<char>| acc + p.push(' '))
}

/// The display name of a command: its `_`-separated words capitalized and
/// joined by spaces. `None` where a word is empty.
pub open spec fn command_name(s: Seq<char>) -> Option<Seq<char>> {
    let parts = split_on(s, '_');
    if exists|i: int| 0 <= i < parts.len() && (#[trigger] parts[i]).len() == 0 {
        None
    } else {
        Some(spaced(parts.map_values(|p: Seq<char>| capitalized(p))).drop_last())
    }
}

/// Sum of the counts of `c` in the pieces.
pub open spec fn count_in_all(ps: Seq<Seq<char>>, c: char) -> nat {
    ps.fold_left(0nat, |n: nat, p: Seq<char>| n + count_char(p, c))
}

/// Splitting at a separator other than `c` keeps every `c`.
proof fn lemma_split_keeps_count(s: Seq<char>, sep: char, c: char)
    requires
        sep != c,
    ensures
        count_char(s, c) == count_in_all(split_on(s, sep), c),
    decreases s.len(),
{
    if s.len() == 0 {
        reveal_with_fuel(Seq::fold_left, 2);
        assert(seq![Seq::<char>::empty()].drop_last() =~= Seq::<Seq<char>>::empty());
    } else {
        let init = s.drop_last();
        let x = s.last();
        lemma_split_keeps_count(init, sep, c);
        lemma_split_on_nonempty(init, sep);
        assert(s =~= init + seq![x]);
        lemma_count_char_add(init, seq![x], c);
        lemma_count_char_single(x, c);
        let p = split_on(init, sep);
        if x == sep {
            assert(p.push(Seq::empty()).drop_last() =~= p);
            assert(count_char(Seq::<char>::empty(), c) == 0) by {
                reveal(Seq::filter);
            }
        } else {
            let q = p.update(p.len() - 1, p.last().push(x));
            assert(q.drop_last() =~= p.drop_last());
            assert(p.last().push(x) =~= p.last() + seq![x]);
            lemma_count_char_add(p.last(), seq![x], c);
        }
    }
}

/// The display name of a command, with the count of `¤` it keeps; `None`
/// where a word is empty.
fn command_name_chars(v: &[char]) -> (r: Option<Vec<char>>)
    ensures
        match r {
            Some(n) => command_name(v@) == Some(n@) && count_char(n@, '\u{a4}') == count_char(
                v@,
                '\u{a4}',
            ),
            None => command_name(v@) is None,
        },
{
    let parts = split_chars(v, '_');
    let ghost ps = split_on(v@, '_');
    let ghost f = |acc: Seq<char>, p: Seq<char>| acc + p.push(' ');
    let ghost g = |n: nat, p: Seq<char>| n + count_char(p, '\u{a4}');
    let ghost caps = ps.map_values(|p: Seq<char>| capitalized(p));
    proof {
        lemma_split_on_nonempty(v@, '_');
        lemma_split_keeps_count(v@, '_', '\u{a4}');
    }
    let mut result: Vec<char> = Vec::new();
    let mut i: usize = 0;
    while i < parts.len()
        invariant
            i <= parts.len(),
            seqs(parts@) == ps,
            ps == split_on(v@, '_'),
            caps == ps.map_values(|p: Seq<char>| capitalized(p)),
            f == (|acc: Seq<char>, p: Seq<char>| acc + p.push(' ')),
            g == (|n: nat, p: Seq<char>| n + count_char(p, '\u{a4}')),
            forall|k: int| 0 <= k < i ==> (#[trigger] ps[k]).len() > 0,
            result@ == caps.take(i as int).fold_left(Seq::<char>::empty(), f),
            count_char(result@, '\u{a4}') == ps.take(i as int).fold_left(0nat, g),
        decreases parts.len() - i,
    {
        let part = &parts[i];
        assert(ps[i as int] == part@);
        if part.len() == 0 {
            return None;
        }
        let ghost before = result@;
        let up = to_uppercase(part[0]);
        append_chars(&mut result, up.as_slice());
        let tail = sub_chars(part.as_slice(), 1, part.len());
        append_chars(&mut result, tail.as_slice());
        result.push(' ');
        proof {
            let p = ps[i as int];
            assert(p =~= seq![p[0]] + p.skip(1));
            assert(result@ =~= before + capitalized(p).push(' '));
            assert(caps.take(i + 1).drop_last() =~= caps.take(i as int));
            assert(ps.take(i + 1).drop_last() =~= ps.take(i as int));
            lemma_count_char_add(before, capitalized(p).push(' '), '\u{a4}');
            assert(capitalized(p).push(' ') =~= upper_case(p[0]) + (p.skip(1) + seq![' ']));
            lemma_count_char_add(upper_case(p[0]), p.skip(1) + seq![' '], '\u{a4}');
            lemma_count_char_add(p.skip(1), seq![' '], '\u{a4}');
            lemma_count_char_add(seq![p[0]], p.skip(1), '\u{a4}');
            lemma_count_char_single(p[0], '\u{a4}');
            lemma_count_char_single(' ', '\u{a4}');
            assert(up@ == upper_case(p[0]));
            if p[0] == '\u{a4}' {
                assert(upper_case(p[0]) == seq!['\u{a4}']);
                lemma_count_char_single('\u{a4}', '\u{a4}');
                assert(count_char(upper_case(p[0]), '\u{a4}') == 1);
                assert(count_char(seq![p[0]], '\u{a4}') == 1);
            } else {
                crate::text::lemma_count_char_absent(upper_case(p[0]), '\u{a4}');
                assert(count_char(upper_case(p[0]), '\u{a4}') == 0);
                assert(count_char(seq![p[0]], '\u{a4}') == 0);
            }
            assert(count_char(upper_case(p[0]), '\u{a4}') == count_char(seq![p[0]], '\u{a4}'));
            assert(count_char(p, '\u{a4}') == count_char(seq![p[0]], '\u{a4}') + count_char(p.skip(1), '\u{a4}'));
            assert(count_char(result@, '\u{a4}') == count_char(before, '\u{a4}') + count_char(p, '\u{a4}'));
            assert(ps.take(i + 1).fold_left(0nat, g) == g(ps.take(i as int).fold_left(0nat, g), p));
        }
        i += 1;
    }
    proof {
        assert(caps.take(parts.len() as int) =~= caps);
        assert(ps.take(parts.len() as int) =~= ps);
        lemma_count_char_single(' ', '\u{a4}');
    }
    let ghost before = result@;
    result.pop();
    proof {
        assert(before =~= result@ + seq![' ']) by {
            assert(before.len() > 0) by {
                assert(caps.len() > 0);
                assert(caps.drop_last().fold_left(Seq::<char>::empty(), f) + caps.last().push(' ') == before);
            }
            assert(before.last() == ' ') by {
                assert(caps.drop_last().fold_left(Seq::<char>::empty(), f) + caps.last().push(' ') == before);
            }
        }
        lemma_count_char_add(result@, seq![' '], '\u{a4}');
    }
    Some(result)
}

/// The display name of a command.
pub fn process_command_name(string: &str) -> (r: String)
    requires
        command_name(string@) is Some,
    ensures
        r@ == command_name(string@).unwrap(),
{
    let v = to_chars(string);
    match command_name_chars(v.as_slice()) {
        Some(n) => crate::text::from_chars(n.as_slice()),
        None => String::new(),
    }
}

// ---------------------------------------------------------------------------
// Commands in rules text
// ---------------------------------------------------------------------------

/// `**`, the emphasis marker of the PDF writer's markdown.
pub open spec fn stars() -> Seq<char> {
    seq!['*', '*']
}

/// Expands the command that starts with the `¤` at `start`. A command is a
/// name that runs to `(` and has parameters up to the first `)`, or runs to
/// the next space, or to the end. It becomes its display name, followed by a
/// space and its parameters if it has any, in bold. `None` where the command
/// cannot be cut out of the text: a `(` without a `)` after the `¤`, a `)`
/// before the `(`, or a name with an empty word.
pub open spec fn command_step(s: Seq<char>, start: int) -> Option<Seq<char>> {
    expand_command(s.subrange(0, start), s.subrange(start + 1, s.len() as int))
}

/// The expansion of the command `sub` that follows the `¤` after `pre`.
pub open spec fn expand_command(pre: Seq<char>, sub: Seq<char>) -> Option<Seq<char>> {
    match find_char_from(sub, '(', 0) {
        Some(ps) => expand_with_params(pre, sub, ps),
        None => expand_plain(pre, sub),
    }
}

/// The expansion of a command whose parameters open at `ps`.
pub open spec fn expand_with_params(pre: Seq<char>, sub: Seq<char>, ps: int) -> Option<Seq<char>> {
    match find_char_from(sub, ')', 0) {
        None => None,
        Some(end) => if end <= ps {
            None
        } else {
            match command_name(sub.subrange(0, ps)) {
                None => None,
                Some(n) => Some(
                    pre + stars() + n + seq![' '] + sub.subrange(ps + 1, end) + stars()
                        + sub.subrange(end + 1, sub.len() as int),
                ),
            }
        },
    }
}

/// The expansion of a command without parameters, which ends at the next
/// space or at the end of the text.
pub open spec fn expand_plain(pre: Seq<char>, sub: Seq<char>) -> Option<Seq<char>> {
    match find_char_from(sub, ' ', 0) {
        Some(sp) => match command_name(sub.subrange(0, sp)) {
            None => None,
            Some(n) => Some(pre + stars() + n + stars() + sub.subrange(sp, sub.len() as int)),
        },
        None => match command_name(sub) {
            None => None,
            Some(n) => Some(pre + stars() + n + stars()),
        },
    }
}

/// `s` with its commands expanded one after the other, always at the first
/// `¤`, until none is left, taking at most `steps` steps (each step removes
/// a `¤`). `None` where an expansion step fails.
pub open spec fn expand_steps(s: Seq<char>, steps: nat) -> Option<Seq<char>>
    decreases steps,
{
    match find_char_from(s, '\u{a4}', 0) {
        None => Some(s),
        Some(start) => match command_step(s, start) {
            None => None,
            Some(t) => if steps == 0 {
                None
            } else {
                expand_steps(t, (steps - 1) as nat)
            },
        },
    }
}

/// `s` with all its commands expanded; `None` where an expansion step fails.
pub open spec fn expand_commands(s: Seq<char>) -> Option<Seq<char>> {
    expand_steps(s, count_char(s, '\u{a4}'))
}

/// Counts of `¤` in five concatenated pieces.
proof fn lemma_count5(a: Seq<char>, b: Seq<char>, c: Seq<char>, d: Seq<char>, e: Seq<char>)
    ensures
        count_char(a + b + c + d + e, '\u{a4}') == count_char(a, '\u{a4}') + count_char(b, '\u{a4}')
            + count_char(c, '\u{a4}') + count_char(d, '\u{a4}') + count_char(e, '\u{a4}'),
{
    lemma_count_char_add(a, b, '\u{a4}');
    lemma_count_char_add(a + b, c, '\u{a4}');
    lemma_count_char_add(a + b + c, d, '\u{a4}');
    lemma_count_char_add(a + b + c + d, e, '\u{a4}');
}

/// `**` holds no `¤`.
proof fn lemma_stars_count()
    ensures
        count_char(stars(), '\u{a4}') == 0,
{
    crate::text::lemma_count_char_absent(stars(), '\u{a4}');
}

/// Expanding a command with parameters removes one `¤`.
proof fn lemma_paren_count(
    pre: Seq<char>,
    n: Seq<char>,
    name: Seq<char>,
    params: Seq<char>,
    rest: Seq<char>,
)
    requires
        count_char(pre, '\u{a4}') == 0,
        count_char(n, '\u{a4}') == count_char(name, '\u{a4}'),
    ensures
        count_char(pre + stars() + n + seq![' '] + params + stars() + rest, '\u{a4}') < count_char(
            pre + seq!['\u{a4}'] + (name + seq!['('] + params + seq![')'] + rest),
            '\u{a4}',
        ),
{
    lemma_stars_count();
    lemma_count_char_single('(', '\u{a4}');
    lemma_count_char_single(')', '\u{a4}');
    lemma_count_char_single(' ', '\u{a4}');
    lemma_count_char_single('\u{a4}', '\u{a4}');
    lemma_count5(name, seq!['('], params, seq![')'], rest);
    lemma_count5(pre + stars(), n, seq![' '], params, stars());
    lemma_count_char_add(pre, stars(), '\u{a4}');
    lemma_count_char_add(pre + stars() + n + seq![' '] + params + stars(), rest, '\u{a4}');
    lemma_count_char_add(pre, seq!['\u{a4}'], '\u{a4}');
    lemma_count_char_add(
        pre + seq!['\u{a4}'],
        name + seq!['('] + params + seq![')'] + rest,
        '\u{a4}',
    );
}

/// Expanding a command without parameters removes one `¤`.
proof fn lemma_plain_count(pre: Seq<char>, n: Seq<char>, name: Seq<char>, rest: Seq<char>)
    requires
        count_char(pre, '\u{a4}') == 0,
        count_char(n, '\u{a4}') == count_char(name, '\u{a4}'),
    ensures
        count_char(pre + stars() + n + stars() + rest, '\u{a4}') < count_char(
            pre + seq!['\u{a4}'] + (name + rest),
            '\u{a4}',
        ),
{
    lemma_stars_count();
    lemma_count_char_single('\u{a4}', '\u{a4}');
    lemma_count5(pre, stars(), n, stars(), rest);
    lemma_count_char_add(name, rest, '\u{a4}');
    lemma_count_char_add(pre, seq!['\u{a4}'], '\u{a4}');
    lemma_count_char_add(pre + seq!['\u{a4}'], name + rest, '\u{a4}');
}

/// `pre`, then in bold the name, a space and the parameters, then `rest`.
fn build_with_params(pre: Vec<char>, n: &[char], params: &[char], rest: &[char]) -> (out: Vec<char>)
    ensures
        out@ == pre@ + stars() + n@ + seq![' '] + params@ + stars() + rest@,
{
    let mut out = pre;
    out.push('*');
    out.push('*');
    append_chars(&mut out, n);
    out.push(' ');
    append_chars(&mut out, params);
    out.push('*');
    out.push('*');
    append_chars(&mut out, rest);
    assert(out@ =~= pre@ + stars() + n@ + seq![' '] + params@ + stars() + rest@);
    out
}

/// `pre`, then the name in bold, then `rest`.
fn build_plain(pre: Vec<char>, n: &[char], rest: &[char]) -> (out: Vec<char>)
    ensures
        out@ == pre@ + stars() + n@ + stars() + rest@,
{
    let mut out = pre;
    out.push('*');
    out.push('*');
    append_chars(&mut out, n);
    out.push('*');
    out.push('*');
    append_chars(&mut out, rest);
    assert(out@ =~= pre@ + stars() + n@ + stars() + rest@);
    out
}

/// The expansion of a command whose parameters open at `ps`.
fn step_with_params(pre: Vec<char>, sub: &[char], ps: usize) -> (r: Option<Vec<char>>)
    requires
        find_char_from(sub@, '(', 0) == Some(ps as int),
        count_char(pre@, '\u{a4}') == 0,
    ensures
        match r {
            Some(t) => expand_with_params(pre@, sub@, ps as int) == Some(t@) && count_char(
                t@,
                '\u{a4}',
            ) < count_char(pre@ + seq!['\u{a4}'] + sub@, '\u{a4}'),
            None => expand_with_params(pre@, sub@, ps as int) is None,
        },
{
    proof {
        crate::text::lemma_find_char_from(sub@, '(', 0);
        crate::text::lemma_find_char_from(sub@, ')', 0);
    }
    match find_char(sub, ')', 0) {
        None => None,
        Some(end) => {
            if end <= ps {
                return None;
            }
            let name = sub_chars(sub, 0, ps);
            match command_name_chars(name.as_slice()) {
                None => None,
                Some(n) => {
                    let params = sub_chars(sub, ps + 1, end);
                    let rest = sub_chars(sub, end + 1, sub.len());
                    proof {
                        assert(sub@ =~= name@ + seq!['('] + params@ + seq![')'] + rest@);
                        lemma_paren_count(pre@, n@, name@, params@, rest@);
                    }
                    Some(build_with_params(pre, n.as_slice(), params.as_slice(), rest.as_slice()))
                },
            }
        },
    }
}

/// The expansion of a command without parameters.
fn step_plain(pre: Vec<char>, sub: &[char]) -> (r: Option<Vec<char>>)
    requires
        count_char(pre@, '\u{a4}') == 0,
    ensures
        match r {
            Some(t) => expand_plain(pre@, sub@) == Some(t@) && count_char(t@, '\u{a4}')
                < count_char(pre@ + seq!['\u{a4}'] + sub@, '\u{a4}'),
            None => expand_plain(pre@, sub@) is None,
        },
{
    proof {
        crate::text::lemma_find_char_from(sub@, ' ', 0);
    }
    match find_char(sub, ' ', 0) {
        Some(sp) => {
            let name = sub_chars(sub, 0, sp);
            match command_name_chars(name.as_slice()) {
                None => None,
                Some(n) => {
                    let rest = sub_chars(sub, sp, sub.len());
                    proof {
                        assert(sub@ =~= name@ + rest@);
                        lemma_plain_count(pre@, n@, name@, rest@);
                    }
                    Some(build_plain(pre, n.as_slice(), rest.as_slice()))
                },
            }
        },
        None => {
            match command_name_chars(sub) {
                None => None,
                Some(n) => {
                    let rest: Vec<char> = Vec::new();
                    proof {
                        assert(sub@ =~= sub@ + rest@);
                        lemma_plain_count(pre@, n@, sub@, rest@);
                        assert(pre@ + stars() + n@ + stars() + rest@ =~= pre@ + stars() + n@
                            + stars());
                    }
                    Some(build_plain(pre, n.as_slice(), rest.as_slice()))
                },
            }
        },
    }
}

/// One expansion step at the first `¤`, which is at `start`.
fn command_step_chars(v: &[char], start: usize) -> (r: Option<Vec<char>>)
    requires
        find_char_from(v@, '\u{a4}', 0) == Some(start as int),
    ensures
        match r {
            Some(t) => command_step(v@, start as int) == Some(t@) && count_char(t@, '\u{a4}')
                < count_char(v@, '\u{a4}'),
            None => command_step(v@, start as int) is None,
        },
{
    proof {
        crate::text::lemma_find_char_from(v@, '\u{a4}', 0);
    }
    assert(start < v.len());
    let sub = sub_chars(v, start + 1, v.len());
    let pre = sub_chars(v, 0, start);
    proof {
        assert(!pre@.contains('\u{a4}'));
        crate::text::lemma_count_char_absent(pre@, '\u{a4}');
        assert(v@ =~= pre@ + seq!['\u{a4}'] + sub@);
        crate::text::lemma_find_char_from(sub@, '(', 0);
    }
    match find_char(sub.as_slice(), '(', 0) {
        Some(ps) => step_with_params(pre, sub.as_slice(), ps),
        None => step_plain(pre, sub.as_slice()),
    }
}

/// `v` with all its commands expanded; `None` where an expansion step fails.
fn expand_commands_chars(v: &[char]) -> (r: Option<Vec<char>>)
    ensures
        match r {
            Some(t) => expand_commands(v@) == Some(t@),
            None => expand_commands(v@) is None,
        },
{
    let ghost orig = v@;
    let mut cur = sub_chars(v, 0, v.len());
    assert(cur@ =~= orig);
    let ghost mut fuel: int = count_char(orig, '\u{a4}') as int;
    loop
        invariant
            orig == v@,
            fuel >= count_char(cur@, '\u{a4}'),
            expand_commands(orig) == expand_steps(cur@, fuel as nat),
        decreases count_char(cur@, '\u{a4}'),
    {
        proof {
            crate::text::lemma_find_char_from(cur@, '\u{a4}', 0);
        }
        match find_char(cur.as_slice(), '\u{a4}', 0) {
            None => {
                assert(find_char_from(cur@, '\u{a4}', 0) is None);
                return Some(cur);
            },
            Some(start) => {
                match command_step_chars(cur.as_slice(), start) {
                    None => {
                        return None;
                    },
                    Some(t) => {
                        assert(find_char_from(cur@, '\u{a4}', 0) == Some(start as int));
                        assert(command_step(cur@, start as int) == Some(t@));
                        assert(expand_steps(cur@, fuel as nat) == expand_steps(
                            t@,
                            (fuel - 1) as nat,
                        ));
                        proof {
                            fuel = fuel - 1;
                        }
                        cur = t;
                    },
                }
            },
        }
    }
}

/// Expands every command of the rules text in place.
pub fn process_commands(string: &mut String)
    requires
        expand_commands(old(string)@) is Some,
    ensures
        final(string)@ == expand_commands(old(string)@).unwrap(),
{
    let v = to_chars(string.as_str());
    match expand_commands_chars(v.as_slice()) {
        Some(t) => {
            *string = crate::text::from_chars(t.as_slice());
        },
        None => {},
    }
}

/// The rules text with every command expanded, or `None` where
/// `process_commands` would fail on it.
pub fn try_process_commands(string: &str) -> (r: Option<String>)
    ensures
        match r {
            Some(t) => expand_commands(string@) == Some(t@),
            None => expand_commands(string@) is None,
        },
{
    let v = to_chars(string);
    match expand_commands_chars(v.as_slice()) {
        Some(t) => Some(crate::text::from_chars(t.as_slice())),
        None => None,
    }
}

// ---------------------------------------------------------------------------
// Keywords
// ---------------------------------------------------------------------------

/// Splits the leading bold keywords off a property text: while the text
/// starts with `**`, everything up to and including the next `**` is a
/// keyword, and the text goes on, trimmed, after it. Gives the keywords and
/// what is left; `None` where a keyword is not closed.
pub open spec fn keywords_of(s: Seq<char>) -> Option<(Seq<Seq<char>>, Seq<char>)>
    decreases s.len(),
{
    if s.len() >= 2 && s[0] == '*' && s[1] == '*' {
        match find_pat_from(s, stars(), 2) {
            None => None,
            Some(j) => {
                proof {
                    crate::text::lemma_find_pat_from(s, stars(), 2);
                    lemma_trim_len(s.subrange(j + 2, s.len() as int));
                }
                let a = trim(s.subrange(0, j + 2));
                let b = trim(s.subrange(j + 2, s.len() as int));
                match keywords_of(b) {
                    None => None,
                    Some(r) => Some((seq![a] + r.0, r.1)),
                }
            },
        }
    } else {
        Some((Seq::empty(), s))
    }
}

/// The keywords and the rest of `v`; `None` where a keyword is not closed.
fn keywords_chars(v: &[char]) -> (r: Option<(Vec<Vec<char>>, Vec<char>)>)
    ensures
        match r {
            Some((ks, rest)) => keywords_of(v@) == Some((seqs(ks@), rest@)),
            None => keywords_of(v@) is None,
        },
{
    let ghost orig = v@;
    let mut cur = sub_chars(v, 0, v.len());
    let mut ks: Vec<Vec<char>> = Vec::new();
    let star_pat: Vec<char> = vec!['*', '*'];
    assert(star_pat@ =~= stars());
    assert(cur@ =~= orig);
    loop
        invariant
            orig == v@,
            star_pat@ == stars(),
            keywords_of(orig) is Some <==> keywords_of(cur@) is Some,
            keywords_of(cur@) is Some ==> keywords_of(orig) == Some(
                (seqs(ks@) + keywords_of(cur@).unwrap().0, keywords_of(cur@).unwrap().1),
            ),
        decreases cur.len(),
    {
        if !(cur.len() >= 2 && cur[0] == '*' && cur[1] == '*') {
            assert(keywords_of(cur@) == Some((Seq::<Seq<char>>::empty(), cur@)));
            assert(seqs(ks@) + Seq::<Seq<char>>::empty() =~= seqs(ks@));
            return Some((ks, cur));
        }
        proof {
            crate::text::lemma_find_pat_from(cur@, stars(), 2);
        }
        match find_pat(cur.as_slice(), star_pat.as_slice(), 2) {
            None => {
                return None;
            },
            Some(j) => {
                let head = sub_chars(cur.as_slice(), 0, j + 2);
                let tail = sub_chars(cur.as_slice(), j + 2, cur.len());
                let a = trim_chars(head.as_slice());
                let b = trim_chars(tail.as_slice());
                proof {
                    lemma_trim_len(tail@);
                    let ghost r = keywords_of(b@);
                    if r is Some {
                        assert(seqs(ks@.push(a)) + r.unwrap().0 =~= seqs(ks@) + (seq![a@] + r.unwrap().0));
                    }
                }
                ks.push(a);
                cur = b;
            },
        }
    }
}

/// Moves the leading bold keywords of `string` into `main_effects`, leaving
/// the rest of the text in `string`.
pub fn split_keywords(string: &mut String, main_effects: &mut Vec<String>)
    requires
        keywords_of(old(string)@) is Some,
    ensures
        strs(final(main_effects)@) == strs(old(main_effects)@) + keywords_of(old(string)@).unwrap().0,
        final(string)@ == keywords_of(old(string)@).unwrap().1,
{
    let v = to_chars(string.as_str());
    match keywords_chars(v.as_slice()) {
        Some((ks, rest)) => {
            let ghost before = strs(main_effects@);
            let mut i: usize = 0;
            while i < ks.len()
                invariant
                    i <= ks.len(),
                    strs(main_effects@) == before + seqs(ks@).take(i as int),
                decreases ks.len() - i,
            {
                let ghost prev = strs(main_effects@);
                main_effects.push(from_chars(ks[i].as_slice()));
                assert(strs(main_effects@) =~= prev.push(ks@[i as int]@));
                assert(seqs(ks@).take(i + 1) =~= seqs(ks@).take(i as int).push(ks@[i as int]@));
                assert(strs(main_effects@) =~= before + seqs(ks@).take(i + 1));
                i += 1;
            }
            assert(seqs(ks@).take(ks.len() as int) =~= seqs(ks@));
            *string = from_chars(rest.as_slice());
        },
        None => {},
    }
}

// ---------------------------------------------------------------------------
// Property text
// ---------------------------------------------------------------------------

/// The keywords and the effect text of a property: its commands expanded and
/// its leading keywords split off. `None` where either step fails.
pub open spec fn property_parts(prop: Seq<char>) -> Option<(Seq<Seq<char>>, Seq<char>)> {
    match expand_commands(prop) {
        None => None,
        Some(e) => keywords_of(e),
    }
}

/// An expansion that succeeds leaves no `¤`.
pub proof fn lemma_expanded_lacks(s: Seq<char>, steps: nat)
    requires
        expand_steps(s, steps) is Some,
    ensures
        !expand_steps(s, steps).unwrap().contains('\u{a4}'),
    decreases steps,
{
    crate::text::lemma_find_char_from(s, '\u{a4}', 0);
    match find_char_from(s, '\u{a4}', 0) {
        None => {
            if s.contains('\u{a4}') {
                let k = choose|k: int| 0 <= k < s.len() && s[k] == '\u{a4}';
                assert(s[k] == '\u{a4}');
            }
        },
        Some(start) => {
            let t = command_step(s, start).unwrap();
            lemma_expanded_lacks(t, (steps - 1) as nat);
        },
    }
}

/// Splitting off keywords from a text without `¤` leaves a rest without `¤`.
proof fn lemma_keywords_lack(s: Seq<char>)
    requires
        !s.contains('\u{a4}'),
        keywords_of(s) is Some,
    ensures
        !keywords_of(s).unwrap().1.contains('\u{a4}'),
    decreases s.len(),
{
    if s.len() >= 2 && s[0] == '*' && s[1] == '*' {
        crate::text::lemma_find_pat_from(s, stars(), 2);
        let j = find_pat_from(s, stars(), 2).unwrap();
        let b = s.subrange(j + 2, s.len() as int);
        crate::text::lemma_part_lacks(s, j + 2, s.len() as int, '\u{a4}');
        lemma_trim_lacks(b, '\u{a4}');
        lemma_keywords_lack(trim(b));
    }
}

/// Whether the effect text of a property can be printed: its commands
/// expand, its keywords are closed and it does not start with a space.
pub open spec fn property_printable(prop: Seq<char>) -> bool {
    &&& property_parts(prop) is Some
    &&& !(property_parts(prop).unwrap().1.len() > 0 && property_parts(prop).unwrap().1[0] == ' ')
}

/// The keywords and effect text of a property, or `None` where the property
/// cannot be printed.
pub fn try_property_text(prop: &str) -> (r: Option<(Vec<String>, String)>)
    ensures
        r is Some <==> property_printable(prop@),
        r matches Some((ks, e)) ==> strs(ks@) == property_parts(prop@).unwrap().0
            && e@ == property_parts(prop@).unwrap().1 && !e@.contains('\u{a4}'),
{
    let v = to_chars(prop);
    let expanded = match expand_commands_chars(v.as_slice()) {
        Some(e) => e,
        None => {
            return None;
        },
    };
    proof {
        lemma_expanded_lacks(prop@, count_char(prop@, '\u{a4}'));
    }
    match keywords_chars(expanded.as_slice()) {
        None => None,
        Some((ks, rest)) => {
            if rest.len() > 0 && rest[0] == ' ' {
                return None;
            }
            proof {
                lemma_keywords_lack(expanded@);
            }
            let mut keywords: Vec<String> = Vec::with_capacity(10);
            let mut i: usize = 0;
            while i < ks.len()
                invariant
                    i <= ks.len(),
                    strs(keywords@) == seqs(ks@).take(i as int),
                decreases ks.len() - i,
            {
                let ghost prev = strs(keywords@);
                keywords.push(from_chars(ks[i].as_slice()));
                assert(strs(keywords@) =~= prev.push(ks@[i as int]@));
                assert(seqs(ks@).take(i + 1) =~= seqs(ks@).take(i as int).push(ks@[i as int]@));
                i += 1;
            }
            assert(seqs(ks@).take(ks.len() as int) =~= seqs(ks@));
            Some((keywords, from_chars(rest.as_slice())))
        },
    }
}

/// The keywords and effect text of a property, as a property is prepared
/// for printing: its commands expanded and its leading keywords split off.
/// The effect text holds no command any more.
pub fn property_text(prop: &str) -> (r: (Vec<String>, String))
    requires
        property_printable(prop@),
    ensures
        strs(r.0@) == property_parts(prop@).unwrap().0,
        r.1@ == property_parts(prop@).unwrap().1,
        !r.1@.contains('\u{a4}'),
{
    match try_property_text(prop) {
        Some(r) => r,
        None => (Vec::new(), String::new()),
    }
}

// ---------------------------------------------------------------------------
// Text beside the property symbol
// ---------------------------------------------------------------------------

/// A count as a signed 32-bit number: its low 32 bits, read in two's
/// complement.
pub open spec fn low_i32(n: int) -> int {
    let m = n % 0x1_0000_0000;
    if m >= 0x8000_0000 {
        m - 0x1_0000_0000
    } else {
        m
    }
}

/// How many lines of a property may still be narrowed beside the property
/// symbol, after `prev` lines already were: the symbol's lines less `prev`,
/// taken as a signed 32-bit number, and never below zero.
pub open spec fn line_budget(prev: int) -> int {
    let d = crate::prop_sym_l - low_i32(prev);
    if d > 0 {
        d
    } else {
        0
    }
}

/// How many lines of a property may still be narrowed beside the property
/// symbol, after `prev_limited_l` lines already were. The count is read as a
/// signed 32-bit number; the two counts whose subtraction overflows there are
/// refused.
pub fn limited_line_budget(prev_limited_l: usize) -> (r: usize)
    requires
        low_i32(prev_limited_l as int) > i32::MIN + 1,
    ensures
        r == line_budget(prev_limited_l as int),
{
    let m: u64 = (prev_limited_l as u64) % 0x1_0000_0000u64;
    let x: i64 = if m >= 0x8000_0000u64 {
        m as i64 - 0x1_0000_0000i64
    } else {
        m as i64
    };
    let d: i64 = 1i64 - x;
    assert(crate::prop_sym_l == 1);
    if d > 0 {
        d as usize
    } else {
        0
    }
}

/// The first `k < n` with `!fits[k]`, or `n` where there is none.
pub open spec fn first_misfit(fits: Seq<bool>, k: int, n: int) -> int
    decreases n - k,
{
    if k >= n {
        n
    } else if !fits[k] {
        k
    } else {
        first_misfit(fits, k + 1, n)
    }
}

/// The last position `k` in `lo..=hi` with a space in `s`, or `None`.
pub open spec fn last_space(s: Seq<char>, lo: int, hi: int) -> Option<int>
    decreases hi - lo + 1,
{
    if hi < lo {
        None
    } else if s[hi] == ' ' {
        Some(hi)
    } else {
        last_space(s, lo, hi - 1)
    }
}

/// Where a text is split so that its first part fits on the given number of
/// lines: `fits[k]` tells whether the first `k + 1` characters fit. The text
/// grows one character at a time while it fits, remembering the last space
/// it reaches; the split falls on that space. Past the end (no split) where
/// the text fits up to its last character, or no space was reached.
pub open spec fn split_position(txt: Seq<char>, fits: Seq<bool>) -> int {
    let last = txt.len() - 1;
    let f = first_misfit(fits, 0, last);
    if f == last {
        last + 1
    } else {
        match last_space(txt, 1, f) {
            Some(k) => k,
            None => last + 1,
        }
    }
}

/// The part of a text that fits on the narrowed lines, and the rest.
pub open spec fn split_on_lines_spec(txt: Seq<char>, fits: Seq<bool>) -> (Seq<char>, Seq<char>) {
    if txt.len() == 0 {
        (Seq::empty(), Seq::empty())
    } else {
        let at = split_position(txt, fits);
        if at > txt.len() - 1 {
            (txt, Seq::empty())
        } else {
            (trim(txt.subrange(0, at)), trim(txt.subrange(at, txt.len() as int)))
        }
    }
}

/// Splits a text so that its first part fits on the narrowed lines beside the
/// property symbol. `prefix_fits[k]` tells whether the first `k + 1`
/// characters fit on the allowed number of lines.
pub fn split_on_lines(txt: &str, prefix_fits: &Vec<bool>) -> (r: (String, String))
    requires
        prefix_fits.len() >= txt@.len(),
        !(txt@.len() == 1 && prefix_fits@[0]),
    ensures
        (r.0@, r.1@) == split_on_lines_spec(txt@, prefix_fits@),
{
    let v = to_chars(txt);
    let num_chars = v.len();
    if num_chars == 0 {
        return (String::new(), String::new());
    }
    let last = num_chars - 1;
    let mut i: usize = 0;
    let mut split_at = last + 1;
    let mut stopped = false;
    while !stopped && prefix_fits[i]
        invariant
            v@ == txt@,
            num_chars == v.len(),
            last == num_chars - 1,
            prefix_fits.len() >= num_chars,
            !(num_chars == 1 && prefix_fits@[0]),
            i <= last,
            stopped ==> first_misfit(prefix_fits@, 0, last as int) == last as int
                && split_at == last + 1,
            !stopped ==> first_misfit(prefix_fits@, 0, last as int) == first_misfit(
                prefix_fits@,
                i as int,
                last as int,
            ),
            !stopped ==> (split_at == (match last_space(v@, 1, i as int) {
                Some(k) => k,
                None => last + 1,
            })),
            !stopped ==> i < last || last == 0,
        decreases last - i, if stopped { 0int } else { 1int },
    {
        assert(i < last);
        assert(first_misfit(prefix_fits@, i as int, last as int) == first_misfit(
            prefix_fits@,
            i + 1,
            last as int,
        ));
        i += 1;
        if i == last {
            split_at = last + 1;
            stopped = true;
        } else {
            if v[i] == ' ' {
                split_at = i;
            }
        }
    }
    let ghost at = split_position(v@, prefix_fits@);
    assert(split_at == at);
    if split_at > last {
        (from_chars(v.as_slice()), String::new())
    } else {
        let a = sub_chars(v.as_slice(), 0, split_at);
        let b = sub_chars(v.as_slice(), split_at, num_chars);
        let a = trim_chars(a.as_slice());
        let b = trim_chars(b.as_slice());
        (from_chars(a.as_slice()), from_chars(b.as_slice()))
    }
}

// ---------------------------------------------------------------------------
// The types line
// ---------------------------------------------------------------------------

/// The types of a card in one line, joined by `, `.
pub open spec fn types_line(ts: Seq<Seq<char>>) -> Seq<char>
    decreases ts.len(),
{
    if ts.len() == 0 {
        Seq::empty()
    } else if ts.len() == 1 {
        ts[0]
    } else {
        types_line(ts.drop_last()) + seq![',', ' '] + ts.last()
    }
}

/// The types of a card in one line, joined by `, `.
pub fn join_types(types: &Vec<String>) -> (r: String)
    ensures
        r@ == types_line(strs(types@)),
{
    let ghost ts = strs(types@);
    let mut out: Vec<char> = Vec::new();
    let mut i: usize = 0;
    assert(ts.take(0) =~= Seq::<Seq<char>>::empty());
    while i < types.len()
        invariant
            ts == strs(types@),
            i <= types.len(),
            out@ == types_line(ts.take(i as int)),
        decreases types.len() - i,
    {
        let ghost before = out@;
        if i > 0 {
            out.push(',');
            out.push(' ');
        }
        let t = to_chars(types[i].as_str());
        append_chars(&mut out, t.as_slice());
        assert(ts.take(i + 1).drop_last() =~= ts.take(i as int));
        assert(ts.take(i + 1).last() == t@);
        if i > 0 {
            assert(out@ =~= before + seq![',', ' '] + t@);
        } else {
            assert(out@ =~= t@);
            assert(ts.take(1)[0] == t@);
        }
        i += 1;
    }
    assert(ts.take(types.len() as int) =~= ts);
    from_chars(out.as_slice())
}

// ---------------------------------------------------------------------------
// Pages
// ---------------------------------------------------------------------------

/// Number of pages that `num_cards` cards fill.
pub open spec fn pages_for(num_cards: int) -> int {
    if num_cards % (crate::cards_per_page as int) == 0 {
        num_cards / (crate::cards_per_page as int)
    } else {
        num_cards / (crate::cards_per_page as int) + 1
    }
}

/// Number of pages that `num_cards` cards fill.
pub fn page_count(num_cards: usize) -> (r: usize)
    ensures
        r == pages_for(num_cards as int),
{
    if num_cards % crate::cards_per_page == 0 {
        num_cards / crate::cards_per_page
    } else {
        num_cards / crate::cards_per_page + 1
    }
}

/// The columns and rows of cards on a page, which size the page's
/// background: the cards left for the page, at most a row of them wide and
/// at most a page of them high.
pub fn page_grid(num_cards: usize, page: usize) -> (r: (usize, usize))
    requires
        page < pages_for(num_cards as int),
        num_cards + crate::cards_per_row <= usize::MAX,
    ensures
        ({
            let left = num_cards - page * crate::cards_per_page;
            &&& r.0 == if left < crate::cards_per_row { left } else { crate::cards_per_row as int }
            &&& r.1 == if (left + crate::cards_per_row - 1) / (crate::cards_per_row as int)
                < crate::cards_per_column {
                (left + crate::cards_per_row - 1) / (crate::cards_per_row as int)
            } else {
                crate::cards_per_column as int
            }
        }),
{
    assert(page * 9 < num_cards) by (nonlinear_arith)
        requires
            page < (if num_cards as int % 9 == 0 { num_cards as int / 9 } else { num_cards as int / 9 + 1 }),
    ;
    let cards_left = num_cards - page * crate::cards_per_page;
    let columns = if cards_left < crate::cards_per_row {
        cards_left
    } else {
        crate::cards_per_row
    };
    let rows_needed = (cards_left + crate::cards_per_row - 1) / crate::cards_per_row;
    let rows = if rows_needed < crate::cards_per_column {
        rows_needed
    } else {
        crate::cards_per_column
    };
    (columns, rows)
}

/// Where a card goes: on which page, in which row and column.
#[derive(Copy, Clone, Debug, PartialEq, Eq, Structural)]
pub struct CardSlot {
    pub index: usize,
    pub page: usize,
    pub row: usize,
    pub column: usize,
}

/// The slots of `num_cards` cards in the order they are printed: page after
/// page, row after row, column after column, card `k` in the `k`-th slot.
pub fn card_slots(num_cards: usize) -> (r: Vec<CardSlot>)
    ensures
        r.len() == num_cards,
        forall|k: int|
            0 <= k < num_cards ==> {
                let s = #[trigger] r@[k];
                &&& s.index == k
                &&& s.index == s.page * crate::cards_per_page + s.row * crate::cards_per_row
                    + s.column
                &&& s.row < crate::cards_per_column
                &&& s.column < crate::cards_per_row
            },
{
    let mut r: Vec<CardSlot> = Vec::with_capacity(num_cards);
    let mut page: usize = 0;
    let mut row: usize = 0;
    let mut column: usize = 0;
    let mut k: usize = 0;
    while k < num_cards
        invariant
            k <= num_cards,
            r.len() == k,
            k == page * 9 + row * 3 + column,
            row < 3,
            column < 3,
            forall|j: int|
                0 <= j < k ==> {
                    let s = #[trigger] r@[j];
                    &&& s.index == j
                    &&& s.index == s.page * crate::cards_per_page + s.row * crate::cards_per_row
                        + s.column
                    &&& s.row < crate::cards_per_column
                    &&& s.column < crate::cards_per_row
                },
        decreases num_cards - k,
    {
        r.push(CardSlot { index: k, page, row, column });
        k += 1;
        if column + 1 < crate::cards_per_row {
            column += 1;
        } else if row + 1 < crate::cards_per_column {
            column = 0;
            row += 1;
        } else {
            column = 0;
            row = 0;
            page += 1;
        }
    }
    r
}

// ---------------------------------------------------------------------------
// Laws
// ---------------------------------------------------------------------------

/// Expanding the commands of a rules text, where it succeeds, leaves no
/// command in it: the text has no `¤` left.
pub proof fn lemma_commands_fully_expanded(s: Seq<char>)
    requires
        expand_commands(s) is Some,
    ensures
        !expand_commands(s).unwrap().contains('\u{a4}'),
{
    lemma_expanded_lacks(s, count_char(s, '\u{a4}'));
}

/// A text without `¤` holds no command, and expanding leaves it unchanged.
pub proof fn lemma_text_without_commands_unchanged(s: Seq<char>)
    requires
        !s.contains('\u{a4}'),
    ensures
        expand_commands(s) == Some(s),
{
    crate::text::lemma_find_char_from(s, '\u{a4}', 0);
    if let Some(i) = find_char_from(s, '\u{a4}', 0) {
        assert(s[i] == '\u{a4}');
    }
}

/// Expanding twice is expanding once: the expanded text is left unchanged.
pub proof fn lemma_expand_commands_idempotent(s: Seq<char>)
    requires
        expand_commands(s) is Some,
    ensures
        expand_commands(expand_commands(s).unwrap()) == expand_commands(s),
{
    lemma_commands_fully_expanded(s);
    lemma_text_without_commands_unchanged(expand_commands(s).unwrap());
}

/// What is left after splitting off the keywords starts with no keyword.
pub proof fn lemma_keywords_rest_has_no_keyword(s: Seq<char>)
    requires
        keywords_of(s) is Some,
    ensures
        !({
            let rest = keywords_of(s).unwrap().1;
            rest.len() >= 2 && rest[0] == '*' && rest[1] == '*'
        }),
    decreases s.len(),
{
    if s.len() >= 2 && s[0] == '*' && s[1] == '*' {
        crate::text::lemma_find_pat_from(s, stars(), 2);
        let j = find_pat_from(s, stars(), 2).unwrap();
        lemma_trim_len(s.subrange(j + 2, s.len() as int));
        lemma_keywords_rest_has_no_keyword(trim(s.subrange(j + 2, s.len() as int)));
    }
}

/// The pages counted for `num_cards` cards hold every card: a slot of a card
/// that exists (its index below `num_cards`) lies on one of those pages.
pub proof fn lemma_slot_on_counted_page(num_cards: int, page: int, row: int, column: int)
    requires
        0 <= page,
        0 <= row < crate::cards_per_column,
        0 <= column < crate::cards_per_row,
        page * crate::cards_per_page + row * crate::cards_per_row + column < num_cards,
    ensures
        page < pages_for(num_cards),
{
    assert(page < (if num_cards % 9 == 0 { num_cards / 9 } else { num_cards / 9 + 1 }))
        by (nonlinear_arith)
        requires
            0 <= page,
            0 <= row * 3 + column < 9,
            page * 9 + row * 3 + column < num_cards,
    ;
}

/// A space at `k` that the walk over `txt` reaches while its prefix still
/// fits: not the first character nor the last, and every prefix shorter than
/// `k + 1` characters fits.
pub open spec fn fitting_space(txt: Seq<char>, fits: Seq<bool>, k: int) -> bool {
    &&& 1 <= k < txt.len() - 1
    &&& txt[k] == ' '
    &&& forall|j: int| 0 <= j < k ==> fits[j]
}

/// Every prefix of `txt` but the whole fits.
pub open spec fn fits_up_to_last(txt: Seq<char>, fits: Seq<bool>) -> bool {
    forall|j: int| 0 <= j < txt.len() - 1 ==> fits[j]
}

/// What `first_misfit` gives, stated pointwise.
proof fn lemma_first_misfit(fits: Seq<bool>, k: int, n: int)
    requires
        0 <= k <= n,
        fits.len() >= n,
    ensures
        k <= first_misfit(fits, k, n) <= n,
        forall|j: int| k <= j < first_misfit(fits, k, n) ==> fits[j],
        first_misfit(fits, k, n) < n ==> !fits[first_misfit(fits, k, n)],
    decreases n - k,
{
    if k < n && fits[k] {
        lemma_first_misfit(fits, k + 1, n);
    }
}

/// What `last_space` gives, stated pointwise.
proof fn lemma_last_space(s: Seq<char>, lo: int, hi: int)
    requires
        0 <= lo,
        hi < s.len(),
    ensures
        match last_space(s, lo, hi) {
            Some(k) => lo <= k <= hi && s[k] == ' ' && forall|m: int| k < m <= hi ==> s[m] != ' ',
            None => forall|m: int| lo <= m <= hi ==> s[m] != ' ',
        },
    decreases hi - lo + 1,
{
    if hi >= lo && s[hi] != ' ' {
        lemma_last_space(s, lo, hi - 1);
    }
}

/// The split falls on the last space that the text reaches while it still
/// fits, and the two parts are the text before and after it, trimmed. Where
/// the text fits up to its last character, or no space is reached, the text
/// stays whole.
pub proof fn lemma_split_on_lines_at_last_fitting_space(txt: Seq<char>, fits: Seq<bool>)
    requires
        fits.len() >= txt.len(),
    ensures
        fits_up_to_last(txt, fits) || (forall|k: int| !fitting_space(txt, fits, k))
            ==> split_on_lines_spec(txt, fits) == (txt, Seq::<char>::empty()),
        forall|k: int|
            #![trigger fitting_space(txt, fits, k)]
            !fits_up_to_last(txt, fits) && fitting_space(txt, fits, k) && (forall|m: int|
                fitting_space(txt, fits, m) ==> m <= k) ==> split_on_lines_spec(txt, fits) == (
                trim(txt.subrange(0, k)),
                trim(txt.subrange(k, txt.len() as int)),
            ),
{
    if txt.len() > 0 {
        let last = txt.len() - 1;
        lemma_first_misfit(fits, 0, last);
        let f = first_misfit(fits, 0, last);
        if f == last {
            assert(fits_up_to_last(txt, fits));
            assert forall|k: int| !fits_up_to_last(txt, fits) && fitting_space(txt, fits, k) implies false by {
            }
        } else {
            assert(!fits[f]);
            assert(!fits_up_to_last(txt, fits));
            lemma_last_space(txt, 1, f);
            assert forall|m: int| fitting_space(txt, fits, m) implies 1 <= m <= f by {
                if m > f {
                    assert(fits[f]);
                }
            }
            match last_space(txt, 1, f) {
                Some(k0) => {
                    assert(fitting_space(txt, fits, k0));
                    assert forall|k: int|
                        #![trigger fitting_space(txt, fits, k)]
                        fitting_space(txt, fits, k) && (forall|m: int|
                            fitting_space(txt, fits, m) ==> m <= k) implies k == k0 by {
                        assert(k0 <= k);
                        assert(k <= f);
                    }
                },
                None => {
                    assert forall|k: int| !fitting_space(txt, fits, k) by {
                        if fitting_space(txt, fits, k) {
                            assert(1 <= k <= f);
                            assert(txt[k] == ' ');
                        }
                    }
                },
            }
        }
    }
}

/// A style's code holds `B` exactly when the style is bold, `I` exactly when
/// it is italic, and nothing else; an alignment's code is the capital first
/// letter of its side, and different alignments have different codes.
pub proof fn lemma_style_and_alignment_codes(t: TextModifier, a: Alignment, b: Alignment)
    ensures
        t.code().contains('B') <==> (t == TextModifier::bold || t == TextModifier::bold_italic),
        t.code().contains('I') <==> (t == TextModifier::italic || t == TextModifier::bold_italic),
        forall|j: int| 0 <= j < t.code().len() ==> #[trigger] t.code()[j] == 'B' || t.code()[j] == 'I',
        t.code().len() <= 2,
        a.code().len() == 1,
        a == Alignment::left ==> a.code()[0] == 'L',
        a == Alignment::center ==> a.code()[0] == 'C',
        a == Alignment::right ==> a.code()[0] == 'R',
        a != b ==> a.code() != b.code(),
{
    if a != b {
        assert(a.code()[0] != b.code()[0]);
    }
    if t == TextModifier::bold_italic {
        assert(t.code()[0] == 'B');
        assert(t.code()[1] == 'I');
    }
    if t == TextModifier::bold {
        assert(t.code()[0] == 'B');
    }
    if t == TextModifier::italic {
        assert(t.code()[0] == 'I');
    }
}

} // verus!
