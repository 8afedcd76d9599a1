//! Rules-text commands of the printed cards in the `¤name` form, and the
//! line counts of prepared properties.
use vstd::prelude::*;

use crate::text::{
    count_char, find_char, find_char_from, find_pat, find_pat_from, from_chars, lemma_count_char_absent,
    lemma_count_char_add, lemma_count_char_single, replace_all, replace_str, sub_chars, to_chars,
    utf8_len, char_utf8_len, append_str, append_chars,
};

verus! {

/// The fixed commands of rules text replaced by their words, in order.
pub open spec fn replace_fixed_commands(s: Seq<char>) -> Seq<char> {
    let s = replace_all(s, "¤quick"@, "Quick"@);
    let s = replace_all(s, "¤instant"@, "Instant"@);
    let s = replace_all(s, "¤passing"@, "Passing"@);
    let s = replace_all(s, "¤Choose_your_c"@, "Choose a friendly card"@);
    let s = replace_all(s, "¤choose_your_c"@, "choose a friendly card"@);
    let s = replace_all(s, "¤Boost"@, "Boost"@);
    let s = replace_all(s, "¤Boost"@, "boost"@);
    let s = replace_all(s, "¤I_have"@, "This card has"@);
    let s = replace_all(s, "¤i_have"@, "this card has"@);
    let s = replace_all(s, "¤Choose_your_pos"@, "Choose a friendly position"@);
    let s = replace_all(s, "¤choose_your_pos"@, "choose a friendly position"@);
    let s = replace_all(s, "¤Attach_me_to_chosen"@, "Attach this card to the chosen card"@);
    let s = replace_all(s, "¤attach_me_to_chosen"@, "attach this card to the chosen card"@);
    let s = replace_all(s, "¤Me"@, "This card"@);
    let s = replace_all(s, "¤me"@, "this card"@);
    let s = replace_all(s, "¤I_am"@, "This card is"@);
    let s = replace_all(s, "¤i_am"@, "this card is"@);
    let s = replace_all(s, "¤I"@, "This card"@);
    let s = replace_all(s, "¤i"@, "this card"@);
    let s = replace_all(s, "¤My"@, "This card's"@);
    let s = replace_all(s, "¤my"@, "this card's"@);
    let s = replace_all(s, "¤Set_my_pos_to_chosen"@, "Move this card to the chosen position"@);
    let s = replace_all(s, "¤set_my_pos_to_chosen"@, "move this card to the chosen position"@);
    s
}

/// `¤summon(`, which opens a summon command.
pub open spec fn summon_marker() -> Seq<char> {
    seq!['\u{a4}', 's', 'u', 'm', 'm', 'o', 'n', '(']
}

/// Expands the summon command at `pos`: its parameter, up to the first `)`,
/// becomes `[b]Summon ...[/b]`, and the `)` and the byte after it are
/// consumed. `None` where there is no `)`, or where no one-byte character
/// follows it.
pub open spec fn summon_step(s: Seq<char>, pos: int) -> Option<Seq<char>> {
    let start = pos + 8;
    match find_char_from(s, ')', start) {
        None => None,
        Some(end) => if end + 1 < s.len() && utf8_len(s[end + 1]) == 1 {
            Some(
                s.subrange(0, pos) + "[b]Summon "@ + s.subrange(start, end) + "[/b]"@ + s.subrange(
                    end + 2,
                    s.len() as int,
                ),
            )
        } else {
            None
        },
    }
}

/// `s` with its summon commands expanded, always the first next, taking at
/// most `steps` steps. `None` where a step fails.
pub open spec fn expand_summons_steps(s: Seq<char>, steps: nat) -> Option<Seq<char>>
    decreases steps,
{
    match find_pat_from(s, summon_marker(), 0) {
        None => Some(s),
        Some(pos) => match summon_step(s, pos) {
            None => None,
            Some(t) => if steps == 0 {
                None
            } else {
                expand_summons_steps(t, (steps - 1) as nat)
            },
        },
    }
}

/// `s` with its summon commands expanded; `None` where a step fails.
pub open spec fn expand_summons(s: Seq<char>) -> Option<Seq<char>> {
    expand_summons_steps(s, count_char(s, '\u{a4}'))
}

/// Rules text with its commands expanded: the fixed commands, then the
/// summon commands. `None` where a summon command is malformed.
pub open spec fn rules_text(s: Seq<char>) -> Option<Seq<char>> {
    if s.len() == 0 {
        Some(Seq::empty())
    } else {
        expand_summons(replace_fixed_commands(s))
    }
}

/// The fixed commands of rules text replaced by their words.
fn replace_fixed_chars(v: Vec<char>) -> (r: Vec<char>)
    ensures
        r@ == replace_fixed_commands(v@),
{
    proof {
        reveal_strlit("¤quick");
    }
    let v = replace_str(v.as_slice(), "¤quick", "Quick");
    proof {
        reveal_strlit("¤instant");
    }
    let v = replace_str(v.as_slice(), "¤instant", "Instant");
    proof {
        reveal_strlit("¤passing");
    }
    let v = replace_str(v.as_slice(), "¤passing", "Passing");
    proof {
        reveal_strlit("¤Choose_your_c");
    }
    let v = replace_str(v.as_slice(), "¤Choose_your_c", "Choose a friendly card");
    proof {
        reveal_strlit("¤choose_your_c");
    }
    let v = replace_str(v.as_slice(), "¤choose_your_c", "choose a friendly card");
    proof {
        reveal_strlit("¤Boost");
    }
    let v = replace_str(v.as_slice(), "¤Boost", "Boost");
    proof {
        reveal_strlit("¤Boost");
    }
    let v = replace_str(v.as_slice(), "¤Boost", "boost");
    proof {
        reveal_strlit("¤I_have");
    }
    let v = replace_str(v.as_slice(), "¤I_have", "This card has");
    proof {
        reveal_strlit("¤i_have");
    }
    let v = replace_str(v.as_slice(), "¤i_have", "this card has");
    proof {
        reveal_strlit("¤Choose_your_pos");
    }
    let v = replace_str(v.as_slice(), "¤Choose_your_pos", "Choose a friendly position");
    proof {
        reveal_strlit("¤choose_your_pos");
    }
    let v = replace_str(v.as_slice(), "¤choose_your_pos", "choose a friendly position");
    proof {
        reveal_strlit("¤Attach_me_to_chosen");
    }
    let v = replace_str(v.as_slice(), "¤Attach_me_to_chosen", "Attach this card to the chosen card");
    proof {
        reveal_strlit("¤attach_me_to_chosen");
    }
    let v = replace_str(v.as_slice(), "¤attach_me_to_chosen", "attach this card to the chosen card");
    proof {
        reveal_strlit("¤Me");
    }
    let v = replace_str(v.as_slice(), "¤Me", "This card");
    proof {
        reveal_strlit("¤me");
    }
    let v = replace_str(v.as_slice(), "¤me", "this card");
    proof {
        reveal_strlit("¤I_am");
    }
    let v = replace_str(v.as_slice(), "¤I_am", "This card is");
    proof {
        reveal_strlit("¤i_am");
    }
    let v = replace_str(v.as_slice(), "¤i_am", "this card is");
    proof {
        reveal_strlit("¤I");
    }
    let v = replace_str(v.as_slice(), "¤I", "This card");
    proof {
        reveal_strlit("¤i");
    }
    let v = replace_str(v.as_slice(), "¤i", "this card");
    proof {
        reveal_strlit("¤My");
    }
    let v = replace_str(v.as_slice(), "¤My", "This card's");
    proof {
        reveal_strlit("¤my");
    }
    let v = replace_str(v.as_slice(), "¤my", "this card's");
    proof {
        reveal_strlit("¤Set_my_pos_to_chosen");
    }
    let v = replace_str(v.as_slice(), "¤Set_my_pos_to_chosen", "Move this card to the chosen position");
    proof {
        reveal_strlit("¤set_my_pos_to_chosen");
    }
    let v = replace_str(v.as_slice(), "¤set_my_pos_to_chosen", "move this card to the chosen position");
    v
}

/// One summon expansion at `pos`, where the text has `¤summon(`.
fn summon_step_chars(v: &[char], pos: usize) -> (r: Option<Vec<char>>)
    requires
        find_pat_from(v@, summon_marker(), 0) == Some(pos as int),
    ensures
        match r {
            Some(t) => summon_step(v@, pos as int) == Some(t@) && count_char(t@, '\u{a4}')
                < count_char(v@, '\u{a4}'),
            None => summon_step(v@, pos as int) is None,
        },
{
    proof {
        crate::text::lemma_find_pat_from(v@, summon_marker(), 0);
        assert(summon_marker().len() == 8);
        assert(pos + 8 <= v.len());
        assert(v@.subrange(pos as int, pos + 8) == summon_marker());
        assert(v@[pos as int] == v@.subrange(pos as int, pos + 8)[0]);
    }
    let start = pos + 8;
    proof {
        crate::text::lemma_find_char_from(v@, ')', start as int);
    }
    match find_char(v, ')', start) {
        None => None,
        Some(end) => {
            if end + 1 < v.len() && char_utf8_len(v[end + 1]) == 1 {
                let mut out = sub_chars(v, 0, pos);
                let ghost pre = out@;
                append_str(&mut out, "[b]Summon ");
                let param = sub_chars(v, start, end);
                append_chars(&mut out, param.as_slice());
                append_str(&mut out, "[/b]");
                let rest = sub_chars(v, end + 2, v.len());
                append_chars(&mut out, rest.as_slice());
                proof {
                    reveal_strlit("[b]Summon ");
                    reveal_strlit("[/b]");
                    let open = "[b]Summon "@;
                    let close = "[/b]"@;
                    assert(out@ =~= pre + open + param@ + close + rest@);
                    let mid = v@.subrange(pos + 1, start as int);
                    assert(mid =~= summon_marker().subrange(1, 8));
                    assert(v@ =~= pre + seq!['\u{a4}'] + mid + param@ + seq![v@[end as int], v@[end + 1]] + rest@);
                    lemma_count_char_absent(open, '\u{a4}');
                    lemma_count_char_absent(close, '\u{a4}');
                    lemma_count_char_absent(mid, '\u{a4}');
                    assert(v@[end + 1] != '\u{a4}');
                    lemma_count_char_absent(seq![v@[end as int], v@[end + 1]], '\u{a4}');
                    lemma_count_char_single('\u{a4}', '\u{a4}');
                    lemma_count_char_add(pre, open, '\u{a4}');
                    lemma_count_char_add(pre + open, param@, '\u{a4}');
                    lemma_count_char_add(pre + open + param@, close, '\u{a4}');
                    lemma_count_char_add(pre + open + param@ + close, rest@, '\u{a4}');
                    lemma_count_char_add(pre, seq!['\u{a4}'], '\u{a4}');
                    lemma_count_char_add(pre + seq!['\u{a4}'], mid, '\u{a4}');
                    lemma_count_char_add(pre + seq!['\u{a4}'] + mid, param@, '\u{a4}');
                    lemma_count_char_add(pre + seq!['\u{a4}'] + mid + param@, seq![v@[end as int], v@[end + 1]], '\u{a4}');
                    lemma_count_char_add(pre + seq!['\u{a4}'] + mid + param@ + seq![v@[end as int], v@[end + 1]], rest@, '\u{a4}');
                }
                Some(out)
            } else {
                None
            }
        },
    }
}

/// `v` with its summon commands expanded; `None` where a step fails.
fn expand_summons_chars(v: &[char]) -> (r: Option<Vec<char>>)
    ensures
        match r {
            Some(t) => expand_summons(v@) == Some(t@),
            None => expand_summons(v@) is None,
        },
{
    let ghost orig = v@;
    let mut cur = sub_chars(v, 0, v.len());
    assert(cur@ =~= orig);
    let ghost mut fuel: int = count_char(orig, '\u{a4}') as int;
    let marker: Vec<char> = vec!['\u{a4}', 's', 'u', 'm', 'm', 'o', 'n', '('];
    assert(marker@ =~= summon_marker());
    loop
        invariant
            orig == v@,
            marker@ == summon_marker(),
            fuel >= count_char(cur@, '\u{a4}'),
            expand_summons(orig) == expand_summons_steps(cur@, fuel as nat),
        decreases count_char(cur@, '\u{a4}'),
    {
        proof {
            crate::text::lemma_find_pat_from(cur@, summon_marker(), 0);
        }
        match find_pat(cur.as_slice(), marker.as_slice(), 0) {
            None => {
                return Some(cur);
            },
            Some(pos) => {
                match summon_step_chars(cur.as_slice(), pos) {
                    None => {
                        return None;
                    },
                    Some(t) => {
                        assert(expand_summons_steps(cur@, fuel as nat) == expand_summons_steps(
                            t@,
                            (fuel - 1) as nat,
                        ));
                        proof {
                            fuel = fuel - 1;
                        }
                        cur = t;
                    },
                }
            },
        }
    }
}

/// Rules text with its commands expanded, or `None` where
/// `process_commands` would fail on it.
pub fn try_process_commands(string: &str) -> (r: Option<String>)
    ensures
        match r {
            Some(t) => rules_text(string@) == Some(t@),
            None => rules_text(string@) is None,
        },
{
    if string.is_empty() {
        return Some(String::new());
    }
    let v = to_chars(string);
    let v = replace_fixed_chars(v);
    match expand_summons_chars(v.as_slice()) {
        Some(t) => Some(from_chars(t.as_slice())),
        None => None,
    }
}

/// Rules text with its commands expanded.
pub fn process_commands(string: &str) -> (r: String)
    requires
        rules_text(string@) is Some,
    ensures
        r@ == rules_text(string@).unwrap(),
{
    match try_process_commands(string) {
        Some(t) => t,
        None => String::new(),
    }
}

// ---------------------------------------------------------------------------
// Laws
// ---------------------------------------------------------------------------

/// Rules text without `¤` holds no command and is left unchanged.
pub proof fn lemma_rules_text_without_commands_unchanged(s: Seq<char>)
    requires
        !s.contains('\u{a4}'),
    ensures
        rules_text(s) == Some(s),
{
    if s.len() > 0 {
        reveal_strlit("¤quick");
        reveal_strlit("¤instant");
        reveal_strlit("¤passing");
        reveal_strlit("¤Choose_your_c");
        reveal_strlit("¤choose_your_c");
        reveal_strlit("¤Boost");
        reveal_strlit("¤I_have");
        reveal_strlit("¤i_have");
        reveal_strlit("¤Choose_your_pos");
        reveal_strlit("¤choose_your_pos");
        reveal_strlit("¤Attach_me_to_chosen");
        reveal_strlit("¤attach_me_to_chosen");
        reveal_strlit("¤Me");
        reveal_strlit("¤me");
        reveal_strlit("¤I_am");
        reveal_strlit("¤i_am");
        reveal_strlit("¤I");
        reveal_strlit("¤i");
        reveal_strlit("¤My");
        reveal_strlit("¤my");
        reveal_strlit("¤Set_my_pos_to_chosen");
        reveal_strlit("¤set_my_pos_to_chosen");
        crate::text::lemma_replace_absent(s, "¤quick"@, "Quick"@);
        crate::text::lemma_replace_absent(s, "¤instant"@, "Instant"@);
        crate::text::lemma_replace_absent(s, "¤passing"@, "Passing"@);
        crate::text::lemma_replace_absent(s, "¤Choose_your_c"@, "Choose a friendly card"@);
        crate::text::lemma_replace_absent(s, "¤choose_your_c"@, "choose a friendly card"@);
        crate::text::lemma_replace_absent(s, "¤Boost"@, "Boost"@);
        crate::text::lemma_replace_absent(s, "¤Boost"@, "boost"@);
        crate::text::lemma_replace_absent(s, "¤I_have"@, "This card has"@);
        crate::text::lemma_replace_absent(s, "¤i_have"@, "this card has"@);
        crate::text::lemma_replace_absent(s, "¤Choose_your_pos"@, "Choose a friendly position"@);
        crate::text::lemma_replace_absent(s, "¤choose_your_pos"@, "choose a friendly position"@);
        crate::text::lemma_replace_absent(s, "¤Attach_me_to_chosen"@, "Attach this card to the chosen card"@);
        crate::text::lemma_replace_absent(s, "¤attach_me_to_chosen"@, "attach this card to the chosen card"@);
        crate::text::lemma_replace_absent(s, "¤Me"@, "This card"@);
        crate::text::lemma_replace_absent(s, "¤me"@, "this card"@);
        crate::text::lemma_replace_absent(s, "¤I_am"@, "This card is"@);
        crate::text::lemma_replace_absent(s, "¤i_am"@, "this card is"@);
        crate::text::lemma_replace_absent(s, "¤I"@, "This card"@);
        crate::text::lemma_replace_absent(s, "¤i"@, "this card"@);
        crate::text::lemma_replace_absent(s, "¤My"@, "This card's"@);
        crate::text::lemma_replace_absent(s, "¤my"@, "this card's"@);
        crate::text::lemma_replace_absent(s, "¤Set_my_pos_to_chosen"@, "Move this card to the chosen position"@);
        crate::text::lemma_replace_absent(s, "¤set_my_pos_to_chosen"@, "move this card to the chosen position"@);
        crate::text::lemma_find_pat_absent(s, summon_marker(), 0);
    }
}

/// Expanding the summon commands, where it succeeds, leaves none.
pub proof fn lemma_no_summons_left(s: Seq<char>, steps: nat)
    requires
        expand_summons_steps(s, steps) is Some,
    ensures
        find_pat_from(expand_summons_steps(s, steps).unwrap(), summon_marker(), 0) is None,
    decreases steps,
{
    if let Some(pos) = find_pat_from(s, summon_marker(), 0) {
        let t = summon_step(s, pos).unwrap();
        lemma_no_summons_left(t, (steps - 1) as nat);
    }
}

/// Expanded rules text holds no summon command.
pub proof fn lemma_rules_text_has_no_summons(s: Seq<char>)
    requires
        rules_text(s) is Some,
    ensures
        find_pat_from(rules_text(s).unwrap(), summon_marker(), 0) is None,
{
    if s.len() == 0 {
        crate::text::lemma_find_pat_from(Seq::<char>::empty(), summon_marker(), 0);
    } else {
        let f = replace_fixed_commands(s);
        lemma_no_summons_left(f, count_char(f, '\u{a4}'));
    }
}

// ---------------------------------------------------------------------------
// Prepared properties
// ---------------------------------------------------------------------------

/// A property prepared for printing: its name, attributes and effect, each
/// split into the part narrowed beside the property symbol and the rest,
/// with the number of lines each part takes.
pub struct DeserializedProperty {
    pub name_limited: String,
    pub name_non_limited: String,
    pub efct_limited: String,
    pub efct_non_limited: String,
    pub attr_limited: String,
    pub attr_non_limited: String,
    pub name_limited_l: usize,
    pub name_non_limited_l: usize,
    pub efct_limited_l: usize,
    pub efct_non_limited_l: usize,
    pub attr_limited_l: usize,
    pub attr_non_limited_l: usize,
}

/// The lines a property takes under the card's background: its attribute
/// and effect lines and one line of padding.
pub open spec fn property_lines(p: DeserializedProperty) -> int {
    p.attr_non_limited_l + p.attr_limited_l + p.efct_non_limited_l + p.efct_limited_l + 1
}

/// The lines that a list of properties takes.
pub open spec fn lines_of_properties(ps: Seq<DeserializedProperty>) -> int
    decreases ps.len(),
{
    if ps.len() == 0 {
        0
    } else {
        lines_of_properties(ps.drop_last()) + property_lines(ps.last())
    }
}

/// The lines of a list of properties only grow as properties are added.
proof fn lemma_lines_monotone(ps: Seq<DeserializedProperty>, k: int)
    requires
        0 <= k <= ps.len(),
    ensures
        lines_of_properties(ps.take(k)) <= lines_of_properties(ps),
    decreases ps.len() - k,
{
    if k < ps.len() {
        lemma_lines_monotone(ps, k + 1);
        assert(ps.take(k + 1).drop_last() =~= ps.take(k));
    } else {
        assert(ps.take(k) =~= ps);
    }
}

/// Adds the lines of `ps` to `h`.
fn add_lines(ps: &Vec<DeserializedProperty>, h: usize) -> (r: usize)
    requires
        h + lines_of_properties(ps@) <= usize::MAX,
    ensures
        r == h + lines_of_properties(ps@),
{
    let mut h = h;
    let ghost h0 = h;
    let mut i: usize = 0;
    while i < ps.len()
        invariant
            i <= ps.len(),
            h0 + lines_of_properties(ps@) <= usize::MAX,
            h == h0 + lines_of_properties(ps@.take(i as int)),
        decreases ps.len() - i,
    {
        proof {
            assert(ps@.take(i + 1).drop_last() =~= ps@.take(i as int));
            lemma_lines_monotone(ps@, i + 1);
        }
        let p = &ps[i];
        h = h + p.attr_non_limited_l;
        h = h + p.attr_limited_l;
        h = h + p.efct_non_limited_l;
        h = h + p.efct_limited_l;
        h = h + 1;
        i += 1;
    }
    assert(ps@.take(ps.len() as int) =~= ps@);
    h
}

/// The lines that a card's properties take under its background: the lines
/// of every action, triggered and passive property, without the padding
/// after the last one.
pub open spec fn height_sum(
    acti: Seq<DeserializedProperty>,
    trig: Seq<DeserializedProperty>,
    pass: Seq<DeserializedProperty>,
) -> int {
    let total = lines_of_properties(acti) + lines_of_properties(trig) + lines_of_properties(pass);
    if acti.len() > 0 || trig.len() > 0 || pass.len() > 0 {
        total - 1
    } else {
        total
    }
}

impl DeserializedProperty {
    /// The lines that a card's properties take under its background.
    pub fn get_height_sum(
        acti: &Vec<DeserializedProperty>,
        trig: &Vec<DeserializedProperty>,
        pass: &Vec<DeserializedProperty>,
    ) -> (h: usize)
        requires
            lines_of_properties(acti@) + lines_of_properties(trig@) + lines_of_properties(pass@)
                <= usize::MAX,
        ensures
            h == height_sum(acti@, trig@, pass@),
    {
        proof {
            lemma_lines_nonneg(acti@);
            lemma_lines_nonneg(trig@);
            lemma_lines_nonneg(pass@);
        }
        let h = add_lines(acti, 0);
        let h = add_lines(trig, h);
        let h = add_lines(pass, h);
        if acti.len() > 0 || trig.len() > 0 || pass.len() > 0 {
            proof {
                lemma_lines_positive(acti@);
                lemma_lines_positive(trig@);
                lemma_lines_positive(pass@);
            }
            h - 1
        } else {
            h
        }
    }
}

/// Lines are never negative.
proof fn lemma_lines_nonneg(ps: Seq<DeserializedProperty>)
    ensures
        lines_of_properties(ps) >= 0,
    decreases ps.len(),
{
    if ps.len() > 0 {
        lemma_lines_nonneg(ps.drop_last());
    }
}

/// A non-empty list of properties takes at least one line.
proof fn lemma_lines_positive(ps: Seq<DeserializedProperty>)
    ensures
        ps.len() > 0 ==> lines_of_properties(ps) >= 1,
{
    if ps.len() > 0 {
        lemma_lines_nonneg(ps.drop_last());
    }
}

// Each fixed command, on its own.

/// `¤quick`, then a space and a text without `¤`: the command becomes `Quick`.
proof fn lemma_fixed_command_0(t: Seq<char>)
    requires
        !t.contains('\u{a4}'),
    ensures
        replace_fixed_commands("¤quick"@ + seq![' '] + t) == "Quick"@ + seq![' '] + t,
        rules_text("¤quick"@ + seq![' '] + t) == Some("Quick"@ + seq![' '] + t),
{
    reveal_strlit("Attach this card to the chosen card");
    reveal_strlit("Boost");
    reveal_strlit("Choose a friendly card");
    reveal_strlit("Choose a friendly position");
    reveal_strlit("Instant");
    reveal_strlit("Move this card to the chosen position");
    reveal_strlit("Passing");
    reveal_strlit("Quick");
    reveal_strlit("This card");
    reveal_strlit("This card has");
    reveal_strlit("This card is");
    reveal_strlit("This card's");
    reveal_strlit("attach this card to the chosen card");
    reveal_strlit("boost");
    reveal_strlit("choose a friendly card");
    reveal_strlit("choose a friendly position");
    reveal_strlit("move this card to the chosen position");
    reveal_strlit("this card");
    reveal_strlit("this card has");
    reveal_strlit("this card is");
    reveal_strlit("this card's");
    reveal_strlit("¤Attach_me_to_chosen");
    reveal_strlit("¤Boost");
    reveal_strlit("¤Choose_your_c");
    reveal_strlit("¤Choose_your_pos");
    reveal_strlit("¤I");
    reveal_strlit("¤I_am");
    reveal_strlit("¤I_have");
    reveal_strlit("¤Me");
    reveal_strlit("¤My");
    reveal_strlit("¤Set_my_pos_to_chosen");
    reveal_strlit("¤attach_me_to_chosen");
    reveal_strlit("¤choose_your_c");
    reveal_strlit("¤choose_your_pos");
    reveal_strlit("¤i");
    reveal_strlit("¤i_am");
    reveal_strlit("¤i_have");
    reveal_strlit("¤instant");
    reveal_strlit("¤me");
    reveal_strlit("¤my");
    reveal_strlit("¤passing");
    reveal_strlit("¤quick");
    reveal_strlit("¤set_my_pos_to_chosen");
    let s0 = "¤quick"@ + seq![' '] + t;
    crate::text::lemma_mark_only_at_start("¤quick"@, t);
    assert(s0.subrange(0, "¤quick"@.len() as int) =~= "¤quick"@);
    crate::text::lemma_replace_at_start(s0, "¤quick"@, "Quick"@);
    let s1 = "Quick"@ + seq![' '] + t;
    assert(s0.subrange("¤quick"@.len() as int, s0.len() as int) =~= seq![' '] + t);
    assert("Quick"@ + (seq![' '] + t) =~= s1);
    crate::text::lemma_no_mark_joined("Quick"@, t);
    crate::text::lemma_find_pat_absent(s1, summon_marker(), 0);
    crate::text::lemma_replace_absent(s1, "¤instant"@, "Instant"@);
    crate::text::lemma_replace_absent(s1, "¤passing"@, "Passing"@);
    crate::text::lemma_replace_absent(s1, "¤Choose_your_c"@, "Choose a friendly card"@);
    crate::text::lemma_replace_absent(s1, "¤choose_your_c"@, "choose a friendly card"@);
    crate::text::lemma_replace_absent(s1, "¤Boost"@, "Boost"@);
    crate::text::lemma_replace_absent(s1, "¤Boost"@, "boost"@);
    crate::text::lemma_replace_absent(s1, "¤I_have"@, "This card has"@);
    crate::text::lemma_replace_absent(s1, "¤i_have"@, "this card has"@);
    crate::text::lemma_replace_absent(s1, "¤Choose_your_pos"@, "Choose a friendly position"@);
    crate::text::lemma_replace_absent(s1, "¤choose_your_pos"@, "choose a friendly position"@);
    crate::text::lemma_replace_absent(s1, "¤Attach_me_to_chosen"@, "Attach this card to the chosen card"@);
    crate::text::lemma_replace_absent(s1, "¤attach_me_to_chosen"@, "attach this card to the chosen card"@);
    crate::text::lemma_replace_absent(s1, "¤Me"@, "This card"@);
    crate::text::lemma_replace_absent(s1, "¤me"@, "this card"@);
    crate::text::lemma_replace_absent(s1, "¤I_am"@, "This card is"@);
    crate::text::lemma_replace_absent(s1, "¤i_am"@, "this card is"@);
    crate::text::lemma_replace_absent(s1, "¤I"@, "This card"@);
    crate::text::lemma_replace_absent(s1, "¤i"@, "this card"@);
    crate::text::lemma_replace_absent(s1, "¤My"@, "This card's"@);
    crate::text::lemma_replace_absent(s1, "¤my"@, "this card's"@);
    crate::text::lemma_replace_absent(s1, "¤Set_my_pos_to_chosen"@, "Move this card to the chosen position"@);
    crate::text::lemma_replace_absent(s1, "¤set_my_pos_to_chosen"@, "move this card to the chosen position"@);
}

/// `¤instant`, then a space and a text without `¤`: the command becomes `Instant`.
proof fn lemma_fixed_command_1(t: Seq<char>)
    requires
        !t.contains('\u{a4}'),
    ensures
        replace_fixed_commands("¤instant"@ + seq![' '] + t) == "Instant"@ + seq![' '] + t,
        rules_text("¤instant"@ + seq![' '] + t) == Some("Instant"@ + seq![' '] + t),
{
    reveal_strlit("Attach this card to the chosen card");
    reveal_strlit("Boost");
    reveal_strlit("Choose a friendly card");
    reveal_strlit("Choose a friendly position");
    reveal_strlit("Instant");
    reveal_strlit("Move this card to the chosen position");
    reveal_strlit("Passing");
    reveal_strlit("Quick");
    reveal_strlit("This card");
    reveal_strlit("This card has");
    reveal_strlit("This card is");
    reveal_strlit("This card's");
    reveal_strlit("attach this card to the chosen card");
    reveal_strlit("boost");
    reveal_strlit("choose a friendly card");
    reveal_strlit("choose a friendly position");
    reveal_strlit("move this card to the chosen position");
    reveal_strlit("this card");
    reveal_strlit("this card has");
    reveal_strlit("this card is");
    reveal_strlit("this card's");
    reveal_strlit("¤Attach_me_to_chosen");
    reveal_strlit("¤Boost");
    reveal_strlit("¤Choose_your_c");
    reveal_strlit("¤Choose_your_pos");
    reveal_strlit("¤I");
    reveal_strlit("¤I_am");
    reveal_strlit("¤I_have");
    reveal_strlit("¤Me");
    reveal_strlit("¤My");
    reveal_strlit("¤Set_my_pos_to_chosen");
    reveal_strlit("¤attach_me_to_chosen");
    reveal_strlit("¤choose_your_c");
    reveal_strlit("¤choose_your_pos");
    reveal_strlit("¤i");
    reveal_strlit("¤i_am");
    reveal_strlit("¤i_have");
    reveal_strlit("¤instant");
    reveal_strlit("¤me");
    reveal_strlit("¤my");
    reveal_strlit("¤passing");
    reveal_strlit("¤quick");
    reveal_strlit("¤set_my_pos_to_chosen");
    let s0 = "¤instant"@ + seq![' '] + t;
    crate::text::lemma_mark_only_at_start("¤instant"@, t);
    crate::text::lemma_replace_mismatch_at_start(s0, "¤quick"@, "Quick"@, 1);
    assert(s0.subrange(0, "¤instant"@.len() as int) =~= "¤instant"@);
    crate::text::lemma_replace_at_start(s0, "¤instant"@, "Instant"@);
    let s1 = "Instant"@ + seq![' '] + t;
    assert(s0.subrange("¤instant"@.len() as int, s0.len() as int) =~= seq![' '] + t);
    assert("Instant"@ + (seq![' '] + t) =~= s1);
    crate::text::lemma_no_mark_joined("Instant"@, t);
    crate::text::lemma_find_pat_absent(s1, summon_marker(), 0);
    crate::text::lemma_replace_absent(s1, "¤passing"@, "Passing"@);
    crate::text::lemma_replace_absent(s1, "¤Choose_your_c"@, "Choose a friendly card"@);
    crate::text::lemma_replace_absent(s1, "¤choose_your_c"@, "choose a friendly card"@);
    crate::text::lemma_replace_absent(s1, "¤Boost"@, "Boost"@);
    crate::text::lemma_replace_absent(s1, "¤Boost"@, "boost"@);
    crate::text::lemma_replace_absent(s1, "¤I_have"@, "This card has"@);
    crate::text::lemma_replace_absent(s1, "¤i_have"@, "this card has"@);
    crate::text::lemma_replace_absent(s1, "¤Choose_your_pos"@, "Choose a friendly position"@);
    crate::text::lemma_replace_absent(s1, "¤choose_your_pos"@, "choose a friendly position"@);
    crate::text::lemma_replace_absent(s1, "¤Attach_me_to_chosen"@, "Attach this card to the chosen card"@);
    crate::text::lemma_replace_absent(s1, "¤attach_me_to_chosen"@, "attach this card to the chosen card"@);
    crate::text::lemma_replace_absent(s1, "¤Me"@, "This card"@);
    crate::text::lemma_replace_absent(s1, "¤me"@, "this card"@);
    crate::text::lemma_replace_absent(s1, "¤I_am"@, "This card is"@);
    crate::text::lemma_replace_absent(s1, "¤i_am"@, "this card is"@);
    crate::text::lemma_replace_absent(s1, "¤I"@, "This card"@);
    crate::text::lemma_replace_absent(s1, "¤i"@, "this card"@);
    crate::text::lemma_replace_absent(s1, "¤My"@, "This card's"@);
    crate::text::lemma_replace_absent(s1, "¤my"@, "this card's"@);
    crate::text::lemma_replace_absent(s1, "¤Set_my_pos_to_chosen"@, "Move this card to the chosen position"@);
    crate::text::lemma_replace_absent(s1, "¤set_my_pos_to_chosen"@, "move this card to the chosen position"@);
}

/// `¤passing`, then a space and a text without `¤`: the command becomes `Passing`.
proof fn lemma_fixed_command_2(t: Seq<char>)
    requires
        !t.contains('\u{a4}'),
    ensures
        replace_fixed_commands("¤passing"@ + seq![' '] + t) == "Passing"@ + seq![' '] + t,
        rules_text("¤passing"@ + seq![' '] + t) == Some("Passing"@ + seq![' '] + t),
{
    reveal_strlit("Attach this card to the chosen card");
    reveal_strlit("Boost");
    reveal_strlit("Choose a friendly card");
    reveal_strlit("Choose a friendly position");
    reveal_strlit("Instant");
    reveal_strlit("Move this card to the chosen position");
    reveal_strlit("Passing");
    reveal_strlit("Quick");
    reveal_strlit("This card");
    reveal_strlit("This card has");
    reveal_strlit("This card is");
    reveal_strlit("This card's");
    reveal_strlit("attach this card to the chosen card");
    reveal_strlit("boost");
    reveal_strlit("choose a friendly card");
    reveal_strlit("choose a friendly position");
    reveal_strlit("move this card to the chosen position");
    reveal_strlit("this card");
    reveal_strlit("this card has");
    reveal_strlit("this card is");
    reveal_strlit("this card's");
    reveal_strlit("¤Attach_me_to_chosen");
    reveal_strlit("¤Boost");
    reveal_strlit("¤Choose_your_c");
    reveal_strlit("¤Choose_your_pos");
    reveal_strlit("¤I");
    reveal_strlit("¤I_am");
    reveal_strlit("¤I_have");
    reveal_strlit("¤Me");
    reveal_strlit("¤My");
    reveal_strlit("¤Set_my_pos_to_chosen");
    reveal_strlit("¤attach_me_to_chosen");
    reveal_strlit("¤choose_your_c");
    reveal_strlit("¤choose_your_pos");
    reveal_strlit("¤i");
    reveal_strlit("¤i_am");
    reveal_strlit("¤i_have");
    reveal_strlit("¤instant");
    reveal_strlit("¤me");
    reveal_strlit("¤my");
    reveal_strlit("¤passing");
    reveal_strlit("¤quick");
    reveal_strlit("¤set_my_pos_to_chosen");
    let s0 = "¤passing"@ + seq![' '] + t;
    crate::text::lemma_mark_only_at_start("¤passing"@, t);
    crate::text::lemma_replace_mismatch_at_start(s0, "¤quick"@, "Quick"@, 1);
    crate::text::lemma_replace_mismatch_at_start(s0, "¤instant"@, "Instant"@, 1);
    assert(s0.subrange(0, "¤passing"@.len() as int) =~= "¤passing"@);
    crate::text::lemma_replace_at_start(s0, "¤passing"@, "Passing"@);
    let s1 = "Passing"@ + seq![' '] + t;
    assert(s0.subrange("¤passing"@.len() as int, s0.len() as int) =~= seq![' '] + t);
    assert("Passing"@ + (seq![' '] + t) =~= s1);
    crate::text::lemma_no_mark_joined("Passing"@, t);
    crate::text::lemma_find_pat_absent(s1, summon_marker(), 0);
    crate::text::lemma_replace_absent(s1, "¤Choose_your_c"@, "Choose a friendly card"@);
    crate::text::lemma_replace_absent(s1, "¤choose_your_c"@, "choose a friendly card"@);
    crate::text::lemma_replace_absent(s1, "¤Boost"@, "Boost"@);
    crate::text::lemma_replace_absent(s1, "¤Boost"@, "boost"@);
    crate::text::lemma_replace_absent(s1, "¤I_have"@, "This card has"@);
    crate::text::lemma_replace_absent(s1, "¤i_have"@, "this card has"@);
    crate::text::lemma_replace_absent(s1, "¤Choose_your_pos"@, "Choose a friendly position"@);
    crate::text::lemma_replace_absent(s1, "¤choose_your_pos"@, "choose a friendly position"@);
    crate::text::lemma_replace_absent(s1, "¤Attach_me_to_chosen"@, "Attach this card to the chosen card"@);
    crate::text::lemma_replace_absent(s1, "¤attach_me_to_chosen"@, "attach this card to the chosen card"@);
    crate::text::lemma_replace_absent(s1, "¤Me"@, "This card"@);
    crate::text::lemma_replace_absent(s1, "¤me"@, "this card"@);
    crate::text::lemma_replace_absent(s1, "¤I_am"@, "This card is"@);
    crate::text::lemma_replace_absent(s1, "¤i_am"@, "this card is"@);
    crate::text::lemma_replace_absent(s1, "¤I"@, "This card"@);
    crate::text::lemma_replace_absent(s1, "¤i"@, "this card"@);
    crate::text::lemma_replace_absent(s1, "¤My"@, "This card's"@);
    crate::text::lemma_replace_absent(s1, "¤my"@, "this card's"@);
    crate::text::lemma_replace_absent(s1, "¤Set_my_pos_to_chosen"@, "Move this card to the chosen position"@);
    crate::text::lemma_replace_absent(s1, "¤set_my_pos_to_chosen"@, "move this card to the chosen position"@);
}

/// `¤Choose_your_c`, then a space and a text without `¤`: the command becomes `Choose a friendly card`.
proof fn lemma_fixed_command_3(t: Seq<char>)
    requires
        !t.contains('\u{a4}'),
    ensures
        replace_fixed_commands("¤Choose_your_c"@ + seq![' '] + t) == "Choose a friendly card"@ + seq![' '] + t,
        rules_text("¤Choose_your_c"@ + seq![' '] + t) == Some("Choose a friendly card"@ + seq![' '] + t),
{
    reveal_strlit("Attach this card to the chosen card");
    reveal_strlit("Boost");
    reveal_strlit("Choose a friendly card");
    reveal_strlit("Choose a friendly position");
    reveal_strlit("Instant");
    reveal_strlit("Move this card to the chosen position");
    reveal_strlit("Passing");
    reveal_strlit("Quick");
    reveal_strlit("This card");
    reveal_strlit("This card has");
    reveal_strlit("This card is");
    reveal_strlit("This card's");
    reveal_strlit("attach this card to the chosen card");
    reveal_strlit("boost");
    reveal_strlit("choose a friendly card");
    reveal_strlit("choose a friendly position");
    reveal_strlit("move this card to the chosen position");
    reveal_strlit("this card");
    reveal_strlit("this card has");
    reveal_strlit("this card is");
    reveal_strlit("this card's");
    reveal_strlit("¤Attach_me_to_chosen");
    reveal_strlit("¤Boost");
    reveal_strlit("¤Choose_your_c");
    reveal_strlit("¤Choose_your_pos");
    reveal_strlit("¤I");
    reveal_strlit("¤I_am");
    reveal_strlit("¤I_have");
    reveal_strlit("¤Me");
    reveal_strlit("¤My");
    reveal_strlit("¤Set_my_pos_to_chosen");
    reveal_strlit("¤attach_me_to_chosen");
    reveal_strlit("¤choose_your_c");
    reveal_strlit("¤choose_your_pos");
    reveal_strlit("¤i");
    reveal_strlit("¤i_am");
    reveal_strlit("¤i_have");
    reveal_strlit("¤instant");
    reveal_strlit("¤me");
    reveal_strlit("¤my");
    reveal_strlit("¤passing");
    reveal_strlit("¤quick");
    reveal_strlit("¤set_my_pos_to_chosen");
    let s0 = "¤Choose_your_c"@ + seq![' '] + t;
    crate::text::lemma_mark_only_at_start("¤Choose_your_c"@, t);
    crate::text::lemma_replace_mismatch_at_start(s0, "¤quick"@, "Quick"@, 1);
    crate::text::lemma_replace_mismatch_at_start(s0, "¤instant"@, "Instant"@, 1);
    crate::text::lemma_replace_mismatch_at_start(s0, "¤passing"@, "Passing"@, 1);
    assert(s0.subrange(0, "¤Choose_your_c"@.len() as int) =~= "¤Choose_your_c"@);
    crate::text::lemma_replace_at_start(s0, "¤Choose_your_c"@, "Choose a friendly card"@);
    let s1 = "Choose a friendly card"@ + seq![' '] + t;
    assert(s0.subrange("¤Choose_your_c"@.len() as int, s0.len() as int) =~= seq![' '] + t);
    assert("Choose a friendly card"@ + (seq![' '] + t) =~= s1);
    crate::text::lemma_no_mark_joined("Choose a friendly card"@, t);
    crate::text::lemma_find_pat_absent(s1, summon_marker(), 0);
    crate::text::lemma_replace_absent(s1, "¤choose_your_c"@, "choose a friendly card"@);
    crate::text::lemma_replace_absent(s1, "¤Boost"@, "Boost"@);
    crate::text::lemma_replace_absent(s1, "¤Boost"@, "boost"@);
    crate::text::lemma_replace_absent(s1, "¤I_have"@, "This card has"@);
    crate::text::lemma_replace_absent(s1, "¤i_have"@, "this card has"@);
    crate::text::lemma_replace_absent(s1, "¤Choose_your_pos"@, "Choose a friendly position"@);
    crate::text::lemma_replace_absent(s1, "¤choose_your_pos"@, "choose a friendly position"@);
    crate::text::lemma_replace_absent(s1, "¤Attach_me_to_chosen"@, "Attach this card to the chosen card"@);
    crate::text::lemma_replace_absent(s1, "¤attach_me_to_chosen"@, "attach this card to the chosen card"@);
    crate::text::lemma_replace_absent(s1, "¤Me"@, "This card"@);
    crate::text::lemma_replace_absent(s1, "¤me"@, "this card"@);
    crate::text::lemma_replace_absent(s1, "¤I_am"@, "This card is"@);
    crate::text::lemma_replace_absent(s1, "¤i_am"@, "this card is"@);
    crate::text::lemma_replace_absent(s1, "¤I"@, "This card"@);
    crate::text::lemma_replace_absent(s1, "¤i"@, "this card"@);
    crate::text::lemma_replace_absent(s1, "¤My"@, "This card's"@);
    crate::text::lemma_replace_absent(s1, "¤my"@, "this card's"@);
    crate::text::lemma_replace_absent(s1, "¤Set_my_pos_to_chosen"@, "Move this card to the chosen position"@);
    crate::text::lemma_replace_absent(s1, "¤set_my_pos_to_chosen"@, "move this card to the chosen position"@);
}

/// `¤choose_your_c`, then a space and a text without `¤`: the command becomes `choose a friendly card`.
proof fn lemma_fixed_command_4(t: Seq<char>)
    requires
        !t.contains('\u{a4}'),
    ensures
        replace_fixed_commands("¤choose_your_c"@ + seq![' '] + t) == "choose a friendly card"@ + seq![' '] + t,
        rules_text("¤choose_your_c"@ + seq![' '] + t) == Some("choose a friendly card"@ + seq![' '] + t),
{
    reveal_strlit("Attach this card to the chosen card");
    reveal_strlit("Boost");
    reveal_strlit("Choose a friendly card");
    reveal_strlit("Choose a friendly position");
    reveal_strlit("Instant");
    reveal_strlit("Move this card to the chosen position");
    reveal_strlit("Passing");
    reveal_strlit("Quick");
    reveal_strlit("This card");
    reveal_strlit("This card has");
    reveal_strlit("This card is");
    reveal_strlit("This card's");
    reveal_strlit("attach this card to the chosen card");
    reveal_strlit("boost");
    reveal_strlit("choose a friendly card");
    reveal_strlit("choose a friendly position");
    reveal_strlit("move this card to the chosen position");
    reveal_strlit("this card");
    reveal_strlit("this card has");
    reveal_strlit("this card is");
    reveal_strlit("this card's");
    reveal_strlit("¤Attach_me_to_chosen");
    reveal_strlit("¤Boost");
    reveal_strlit("¤Choose_your_c");
    reveal_strlit("¤Choose_your_pos");
    reveal_strlit("¤I");
    reveal_strlit("¤I_am");
    reveal_strlit("¤I_have");
    reveal_strlit("¤Me");
    reveal_strlit("¤My");
    reveal_strlit("¤Set_my_pos_to_chosen");
    reveal_strlit("¤attach_me_to_chosen");
    reveal_strlit("¤choose_your_c");
    reveal_strlit("¤choose_your_pos");
    reveal_strlit("¤i");
    reveal_strlit("¤i_am");
    reveal_strlit("¤i_have");
    reveal_strlit("¤instant");
    reveal_strlit("¤me");
    reveal_strlit("¤my");
    reveal_strlit("¤passing");
    reveal_strlit("¤quick");
    reveal_strlit("¤set_my_pos_to_chosen");
    let s0 = "¤choose_your_c"@ + seq![' '] + t;
    crate::text::lemma_mark_only_at_start("¤choose_your_c"@, t);
    crate::text::lemma_replace_mismatch_at_start(s0, "¤quick"@, "Quick"@, 1);
    crate::text::lemma_replace_mismatch_at_start(s0, "¤instant"@, "Instant"@, 1);
    crate::text::lemma_replace_mismatch_at_start(s0, "¤passing"@, "Passing"@, 1);
    crate::text::lemma_replace_mismatch_at_start(s0, "¤Choose_your_c"@, "Choose a friendly card"@, 1);
    assert(s0.subrange(0, "¤choose_your_c"@.len() as int) =~= "¤choose_your_c"@);
    crate::text::lemma_replace_at_start(s0, "¤choose_your_c"@, "choose a friendly card"@);
    let s1 = "choose a friendly card"@ + seq![' '] + t;
    assert(s0.subrange("¤choose_your_c"@.len() as int, s0.len() as int) =~= seq![' '] + t);
    assert("choose a friendly card"@ + (seq![' '] + t) =~= s1);
    crate::text::lemma_no_mark_joined("choose a friendly card"@, t);
    crate::text::lemma_find_pat_absent(s1, summon_marker(), 0);
    crate::text::lemma_replace_absent(s1, "¤Boost"@, "Boost"@);
    crate::text::lemma_replace_absent(s1, "¤Boost"@, "boost"@);
    crate::text::lemma_replace_absent(s1, "¤I_have"@, "This card has"@);
    crate::text::lemma_replace_absent(s1, "¤i_have"@, "this card has"@);
    crate::text::lemma_replace_absent(s1, "¤Choose_your_pos"@, "Choose a friendly position"@);
    crate::text::lemma_replace_absent(s1, "¤choose_your_pos"@, "choose a friendly position"@);
    crate::text::lemma_replace_absent(s1, "¤Attach_me_to_chosen"@, "Attach this card to the chosen card"@);
    crate::text::lemma_replace_absent(s1, "¤attach_me_to_chosen"@, "attach this card to the chosen card"@);
    crate::text::lemma_replace_absent(s1, "¤Me"@, "This card"@);
    crate::text::lemma_replace_absent(s1, "¤me"@, "this card"@);
    crate::text::lemma_replace_absent(s1, "¤I_am"@, "This card is"@);
    crate::text::lemma_replace_absent(s1, "¤i_am"@, "this card is"@);
    crate::text::lemma_replace_absent(s1, "¤I"@, "This card"@);
    crate::text::lemma_replace_absent(s1, "¤i"@, "this card"@);
    crate::text::lemma_replace_absent(s1, "¤My"@, "This card's"@);
    crate::text::lemma_replace_absent(s1, "¤my"@, "this card's"@);
    crate::text::lemma_replace_absent(s1, "¤Set_my_pos_to_chosen"@, "Move this card to the chosen position"@);
    crate::text::lemma_replace_absent(s1, "¤set_my_pos_to_chosen"@, "move this card to the chosen position"@);
}

/// `¤Boost`, then a space and a text without `¤`: the command becomes `Boost`.
proof fn lemma_fixed_command_5(t: Seq<char>)
    requires
        !t.contains('\u{a4}'),
    ensures
        replace_fixed_commands("¤Boost"@ + seq![' '] + t) == "Boost"@ + seq![' '] + t,
        rules_text("¤Boost"@ + seq![' '] + t) == Some("Boost"@ + seq![' '] + t),
{
    reveal_strlit("Attach this card to the chosen card");
    reveal_strlit("Boost");
    reveal_strlit("Choose a friendly card");
    reveal_strlit("Choose a friendly position");
    reveal_strlit("Instant");
    reveal_strlit("Move this card to the chosen position");
    reveal_strlit("Passing");
    reveal_strlit("Quick");
    reveal_strlit("This card");
    reveal_strlit("This card has");
    reveal_strlit("This card is");
    reveal_strlit("This card's");
    reveal_strlit("attach this card to the chosen card");
    reveal_strlit("boost");
    reveal_strlit("choose a friendly card");
    reveal_strlit("choose a friendly position");
    reveal_strlit("move this card to the chosen position");
    reveal_strlit("this card");
    reveal_strlit("this card has");
    reveal_strlit("this card is");
    reveal_strlit("this card's");
    reveal_strlit("¤Attach_me_to_chosen");
    reveal_strlit("¤Boost");
    reveal_strlit("¤Choose_your_c");
    reveal_strlit("¤Choose_your_pos");
    reveal_strlit("¤I");
    reveal_strlit("¤I_am");
    reveal_strlit("¤I_have");
    reveal_strlit("¤Me");
    reveal_strlit("¤My");
    reveal_strlit("¤Set_my_pos_to_chosen");
    reveal_strlit("¤attach_me_to_chosen");
    reveal_strlit("¤choose_your_c");
    reveal_strlit("¤choose_your_pos");
    reveal_strlit("¤i");
    reveal_strlit("¤i_am");
    reveal_strlit("¤i_have");
    reveal_strlit("¤instant");
    reveal_strlit("¤me");
    reveal_strlit("¤my");
    reveal_strlit("¤passing");
    reveal_strlit("¤quick");
    reveal_strlit("¤set_my_pos_to_chosen");
    let s0 = "¤Boost"@ + seq![' '] + t;
    crate::text::lemma_mark_only_at_start("¤Boost"@, t);
    crate::text::lemma_replace_mismatch_at_start(s0, "¤quick"@, "Quick"@, 1);
    crate::text::lemma_replace_mismatch_at_start(s0, "¤instant"@, "Instant"@, 1);
    crate::text::lemma_replace_mismatch_at_start(s0, "¤passing"@, "Passing"@, 1);
    crate::text::lemma_replace_mismatch_at_start(s0, "¤Choose_your_c"@, "Choose a friendly card"@, 1);
    crate::text::lemma_replace_mismatch_at_start(s0, "¤choose_your_c"@, "choose a friendly card"@, 1);
    assert(s0.subrange(0, "¤Boost"@.len() as int) =~= "¤Boost"@);
    crate::text::lemma_replace_at_start(s0, "¤Boost"@, "Boost"@);
    let s1 = "Boost"@ + seq![' '] + t;
    assert(s0.subrange("¤Boost"@.len() as int, s0.len() as int) =~= seq![' '] + t);
    assert("Boost"@ + (seq![' '] + t) =~= s1);
    crate::text::lemma_no_mark_joined("Boost"@, t);
    crate::text::lemma_find_pat_absent(s1, summon_marker(), 0);
    crate::text::lemma_replace_absent(s1, "¤Boost"@, "boost"@);
    crate::text::lemma_replace_absent(s1, "¤I_have"@, "This card has"@);
    crate::text::lemma_replace_absent(s1, "¤i_have"@, "this card has"@);
    crate::text::lemma_replace_absent(s1, "¤Choose_your_pos"@, "Choose a friendly position"@);
    crate::text::lemma_replace_absent(s1, "¤choose_your_pos"@, "choose a friendly position"@);
    crate::text::lemma_replace_absent(s1, "¤Attach_me_to_chosen"@, "Attach this card to the chosen card"@);
    crate::text::lemma_replace_absent(s1, "¤attach_me_to_chosen"@, "attach this card to the chosen card"@);
    crate::text::lemma_replace_absent(s1, "¤Me"@, "This card"@);
    crate::text::lemma_replace_absent(s1, "¤me"@, "this card"@);
    crate::text::lemma_replace_absent(s1, "¤I_am"@, "This card is"@);
    crate::text::lemma_replace_absent(s1, "¤i_am"@, "this card is"@);
    crate::text::lemma_replace_absent(s1, "¤I"@, "This card"@);
    crate::text::lemma_replace_absent(s1, "¤i"@, "this card"@);
    crate::text::lemma_replace_absent(s1, "¤My"@, "This card's"@);
    crate::text::lemma_replace_absent(s1, "¤my"@, "this card's"@);
    crate::text::lemma_replace_absent(s1, "¤Set_my_pos_to_chosen"@, "Move this card to the chosen position"@);
    crate::text::lemma_replace_absent(s1, "¤set_my_pos_to_chosen"@, "move this card to the chosen position"@);
}

/// `¤I_have`, then a space and a text without `¤`: the command becomes `This card has`.
proof fn lemma_fixed_command_6(t: Seq<char>)
    requires
        !t.contains('\u{a4}'),
    ensures
        replace_fixed_commands("¤I_have"@ + seq![' '] + t) == "This card has"@ + seq![' '] + t,
        rules_text("¤I_have"@ + seq![' '] + t) == Some("This card has"@ + seq![' '] + t),
{
    reveal_strlit("Attach this card to the chosen card");
    reveal_strlit("Boost");
    reveal_strlit("Choose a friendly card");
    reveal_strlit("Choose a friendly position");
    reveal_strlit("Instant");
    reveal_strlit("Move this card to the chosen position");
    reveal_strlit("Passing");
    reveal_strlit("Quick");
    reveal_strlit("This card");
    reveal_strlit("This card has");
    reveal_strlit("This card is");
    reveal_strlit("This card's");
    reveal_strlit("attach this card to the chosen card");
    reveal_strlit("boost");
    reveal_strlit("choose a friendly card");
    reveal_strlit("choose a friendly position");
    reveal_strlit("move this card to the chosen position");
    reveal_strlit("this card");
    reveal_strlit("this card has");
    reveal_strlit("this card is");
    reveal_strlit("this card's");
    reveal_strlit("¤Attach_me_to_chosen");
    reveal_strlit("¤Boost");
    reveal_strlit("¤Choose_your_c");
    reveal_strlit("¤Choose_your_pos");
    reveal_strlit("¤I");
    reveal_strlit("¤I_am");
    reveal_strlit("¤I_have");
    reveal_strlit("¤Me");
    reveal_strlit("¤My");
    reveal_strlit("¤Set_my_pos_to_chosen");
    reveal_strlit("¤attach_me_to_chosen");
    reveal_strlit("¤choose_your_c");
    reveal_strlit("¤choose_your_pos");
    reveal_strlit("¤i");
    reveal_strlit("¤i_am");
    reveal_strlit("¤i_have");
    reveal_strlit("¤instant");
    reveal_strlit("¤me");
    reveal_strlit("¤my");
    reveal_strlit("¤passing");
    reveal_strlit("¤quick");
    reveal_strlit("¤set_my_pos_to_chosen");
    let s0 = "¤I_have"@ + seq![' '] + t;
    crate::text::lemma_mark_only_at_start("¤I_have"@, t);
    crate::text::lemma_replace_mismatch_at_start(s0, "¤quick"@, "Quick"@, 1);
    crate::text::lemma_replace_mismatch_at_start(s0, "¤instant"@, "Instant"@, 1);
    crate::text::lemma_replace_mismatch_at_start(s0, "¤passing"@, "Passing"@, 1);
    crate::text::lemma_replace_mismatch_at_start(s0, "¤Choose_your_c"@, "Choose a friendly card"@, 1);
    crate::text::lemma_replace_mismatch_at_start(s0, "¤choose_your_c"@, "choose a friendly card"@, 1);
    crate::text::lemma_replace_mismatch_at_start(s0, "¤Boost"@, "Boost"@, 1);
    crate::text::lemma_replace_mismatch_at_start(s0, "¤Boost"@, "boost"@, 1);
    assert(s0.subrange(0, "¤I_have"@.len() as int) =~= "¤I_have"@);
    crate::text::lemma_replace_at_start(s0, "¤I_have"@, "This card has"@);
    let s1 = "This card has"@ + seq![' '] + t;
    assert(s0.subrange("¤I_have"@.len() as int, s0.len() as int) =~= seq![' '] + t);
    assert("This card has"@ + (seq![' '] + t) =~= s1);
    crate::text::lemma_no_mark_joined("This card has"@, t);
    crate::text::lemma_find_pat_absent(s1, summon_marker(), 0);
    crate::text::lemma_replace_absent(s1, "¤i_have"@, "this card has"@);
    crate::text::lemma_replace_absent(s1, "¤Choose_your_pos"@, "Choose a friendly position"@);
    crate::text::lemma_replace_absent(s1, "¤choose_your_pos"@, "choose a friendly position"@);
    crate::text::lemma_replace_absent(s1, "¤Attach_me_to_chosen"@, "Attach this card to the chosen card"@);
    crate::text::lemma_replace_absent(s1, "¤attach_me_to_chosen"@, "attach this card to the chosen card"@);
    crate::text::lemma_replace_absent(s1, "¤Me"@, "This card"@);
    crate::text::lemma_replace_absent(s1, "¤me"@, "this card"@);
    crate::text::lemma_replace_absent(s1, "¤I_am"@, "This card is"@);
    crate::text::lemma_replace_absent(s1, "¤i_am"@, "this card is"@);
    crate::text::lemma_replace_absent(s1, "¤I"@, "This card"@);
    crate::text::lemma_replace_absent(s1, "¤i"@, "this card"@);
    crate::text::lemma_replace_absent(s1, "¤My"@, "This card's"@);
    crate::text::lemma_replace_absent(s1, "¤my"@, "this card's"@);
    crate::text::lemma_replace_absent(s1, "¤Set_my_pos_to_chosen"@, "Move this card to the chosen position"@);
    crate::text::lemma_replace_absent(s1, "¤set_my_pos_to_chosen"@, "move this card to the chosen position"@);
}

/// `¤i_have`, then a space and a text without `¤`: the command becomes `this card has`.
proof fn lemma_fixed_command_7(t: Seq<char>)
    requires
        !t.contains('\u{a4}'),
    ensures
        replace_fixed_commands("¤i_have"@ + seq![' '] + t) == "this card has"@ + seq![' '] + t,
        rules_text("¤i_have"@ + seq![' '] + t) == Some("this card has"@ + seq![' '] + t),
{
    reveal_strlit("Attach this card to the chosen card");
    reveal_strlit("Boost");
    reveal_strlit("Choose a friendly card");
    reveal_strlit("Choose a friendly position");
    reveal_strlit("Instant");
    reveal_strlit("Move this card to the chosen position");
    reveal_strlit("Passing");
    reveal_strlit("Quick");
    reveal_strlit("This card");
    reveal_strlit("This card has");
    reveal_strlit("This card is");
    reveal_strlit("This card's");
    reveal_strlit("attach this card to the chosen card");
    reveal_strlit("boost");
    reveal_strlit("choose a friendly card");
    reveal_strlit("choose a friendly position");
    reveal_strlit("move this card to the chosen position");
    reveal_strlit("this card");
    reveal_strlit("this card has");
    reveal_strlit("this card is");
    reveal_strlit("this card's");
    reveal_strlit("¤Attach_me_to_chosen");
    reveal_strlit("¤Boost");
    reveal_strlit("¤Choose_your_c");
    reveal_strlit("¤Choose_your_pos");
    reveal_strlit("¤I");
    reveal_strlit("¤I_am");
    reveal_strlit("¤I_have");
    reveal_strlit("¤Me");
    reveal_strlit("¤My");
    reveal_strlit("¤Set_my_pos_to_chosen");
    reveal_strlit("¤attach_me_to_chosen");
    reveal_strlit("¤choose_your_c");
    reveal_strlit("¤choose_your_pos");
    reveal_strlit("¤i");
    reveal_strlit("¤i_am");
    reveal_strlit("¤i_have");
    reveal_strlit("¤instant");
    reveal_strlit("¤me");
    reveal_strlit("¤my");
    reveal_strlit("¤passing");
    reveal_strlit("¤quick");
    reveal_strlit("¤set_my_pos_to_chosen");
    let s0 = "¤i_have"@ + seq![' '] + t;
    crate::text::lemma_mark_only_at_start("¤i_have"@, t);
    crate::text::lemma_replace_mismatch_at_start(s0, "¤quick"@, "Quick"@, 1);
    crate::text::lemma_replace_mismatch_at_start(s0, "¤instant"@, "Instant"@, 2);
    crate::text::lemma_replace_mismatch_at_start(s0, "¤passing"@, "Passing"@, 1);
    crate::text::lemma_replace_mismatch_at_start(s0, "¤Choose_your_c"@, "Choose a friendly card"@, 1);
    crate::text::lemma_replace_mismatch_at_start(s0, "¤choose_your_c"@, "choose a friendly card"@, 1);
    crate::text::lemma_replace_mismatch_at_start(s0, "¤Boost"@, "Boost"@, 1);
    crate::text::lemma_replace_mismatch_at_start(s0, "¤Boost"@, "boost"@, 1);
    crate::text::lemma_replace_mismatch_at_start(s0, "¤I_have"@, "This card has"@, 1);
    assert(s0.subrange(0, "¤i_have"@.len() as int) =~= "¤i_have"@);
    crate::text::lemma_replace_at_start(s0, "¤i_have"@, "this card has"@);
    let s1 = "this card has"@ + seq![' '] + t;
    assert(s0.subrange("¤i_have"@.len() as int, s0.len() as int) =~= seq![' '] + t);
    assert("this card has"@ + (seq![' '] + t) =~= s1);
    crate::text::lemma_no_mark_joined("this card has"@, t);
    crate::text::lemma_find_pat_absent(s1, summon_marker(), 0);
    crate::text::lemma_replace_absent(s1, "¤Choose_your_pos"@, "Choose a friendly position"@);
    crate::text::lemma_replace_absent(s1, "¤choose_your_pos"@, "choose a friendly position"@);
    crate::text::lemma_replace_absent(s1, "¤Attach_me_to_chosen"@, "Attach this card to the chosen card"@);
    crate::text::lemma_replace_absent(s1, "¤attach_me_to_chosen"@, "attach this card to the chosen card"@);
    crate::text::lemma_replace_absent(s1, "¤Me"@, "This card"@);
    crate::text::lemma_replace_absent(s1, "¤me"@, "this card"@);
    crate::text::lemma_replace_absent(s1, "¤I_am"@, "This card is"@);
    crate::text::lemma_replace_absent(s1, "¤i_am"@, "this card is"@);
    crate::text::lemma_replace_absent(s1, "¤I"@, "This card"@);
    crate::text::lemma_replace_absent(s1, "¤i"@, "this card"@);
    crate::text::lemma_replace_absent(s1, "¤My"@, "This card's"@);
    crate::text::lemma_replace_absent(s1, "¤my"@, "this card's"@);
    crate::text::lemma_replace_absent(s1, "¤Set_my_pos_to_chosen"@, "Move this card to the chosen position"@);
    crate::text::lemma_replace_absent(s1, "¤set_my_pos_to_chosen"@, "move this card to the chosen position"@);
}

/// `¤Choose_your_pos`, then a space and a text without `¤`: the command becomes `Choose a friendly position`.
proof fn lemma_fixed_command_8(t: Seq<char>)
    requires
        !t.contains('\u{a4}'),
    ensures
        replace_fixed_commands("¤Choose_your_pos"@ + seq![' '] + t) == "Choose a friendly position"@ + seq![' '] + t,
        rules_text("¤Choose_your_pos"@ + seq![' '] + t) == Some("Choose a friendly position"@ + seq![' '] + t),
{
    reveal_strlit("Attach this card to the chosen card");
    reveal_strlit("Boost");
    reveal_strlit("Choose a friendly card");
    reveal_strlit("Choose a friendly position");
    reveal_strlit("Instant");
    reveal_strlit("Move this card to the chosen position");
    reveal_strlit("Passing");
    reveal_strlit("Quick");
    reveal_strlit("This card");
    reveal_strlit("This card has");
    reveal_strlit("This card is");
    reveal_strlit("This card's");
    reveal_strlit("attach this card to the chosen card");
    reveal_strlit("boost");
    reveal_strlit("choose a friendly card");
    reveal_strlit("choose a friendly position");
    reveal_strlit("move this card to the chosen position");
    reveal_strlit("this card");
    reveal_strlit("this card has");
    reveal_strlit("this card is");
    reveal_strlit("this card's");
    reveal_strlit("¤Attach_me_to_chosen");
    reveal_strlit("¤Boost");
    reveal_strlit("¤Choose_your_c");
    reveal_strlit("¤Choose_your_pos");
    reveal_strlit("¤I");
    reveal_strlit("¤I_am");
    reveal_strlit("¤I_have");
    reveal_strlit("¤Me");
    reveal_strlit("¤My");
    reveal_strlit("¤Set_my_pos_to_chosen");
    reveal_strlit("¤attach_me_to_chosen");
    reveal_strlit("¤choose_your_c");
    reveal_strlit("¤choose_your_pos");
    reveal_strlit("¤i");
    reveal_strlit("¤i_am");
    reveal_strlit("¤i_have");
    reveal_strlit("¤instant");
    reveal_strlit("¤me");
    reveal_strlit("¤my");
    reveal_strlit("¤passing");
    reveal_strlit("¤quick");
    reveal_strlit("¤set_my_pos_to_chosen");
    let s0 = "¤Choose_your_pos"@ + seq![' '] + t;
    crate::text::lemma_mark_only_at_start("¤Choose_your_pos"@, t);
    crate::text::lemma_replace_mismatch_at_start(s0, "¤quick"@, "Quick"@, 1);
    crate::text::lemma_replace_mismatch_at_start(s0, "¤instant"@, "Instant"@, 1);
    crate::text::lemma_replace_mismatch_at_start(s0, "¤passing"@, "Passing"@, 1);
    crate::text::lemma_replace_mismatch_at_start(s0, "¤Choose_your_c"@, "Choose a friendly card"@, 13);
    crate::text::lemma_replace_mismatch_at_start(s0, "¤choose_your_c"@, "choose a friendly card"@, 1);
    crate::text::lemma_replace_mismatch_at_start(s0, "¤Boost"@, "Boost"@, 1);
    crate::text::lemma_replace_mismatch_at_start(s0, "¤Boost"@, "boost"@, 1);
    crate::text::lemma_replace_mismatch_at_start(s0, "¤I_have"@, "This card has"@, 1);
    crate::text::lemma_replace_mismatch_at_start(s0, "¤i_have"@, "this card has"@, 1);
    assert(s0.subrange(0, "¤Choose_your_pos"@.len() as int) =~= "¤Choose_your_pos"@);
    crate::text::lemma_replace_at_start(s0, "¤Choose_your_pos"@, "Choose a friendly position"@);
    let s1 = "Choose a friendly position"@ + seq![' '] + t;
    assert(s0.subrange("¤Choose_your_pos"@.len() as int, s0.len() as int) =~= seq![' '] + t);
    assert("Choose a friendly position"@ + (seq![' '] + t) =~= s1);
    crate::text::lemma_no_mark_joined("Choose a friendly position"@, t);
    crate::text::lemma_find_pat_absent(s1, summon_marker(), 0);
    crate::text::lemma_replace_absent(s1, "¤choose_your_pos"@, "choose a friendly position"@);
    crate::text::lemma_replace_absent(s1, "¤Attach_me_to_chosen"@, "Attach this card to the chosen card"@);
    crate::text::lemma_replace_absent(s1, "¤attach_me_to_chosen"@, "attach this card to the chosen card"@);
    crate::text::lemma_replace_absent(s1, "¤Me"@, "This card"@);
    crate::text::lemma_replace_absent(s1, "¤me"@, "this card"@);
    crate::text::lemma_replace_absent(s1, "¤I_am"@, "This card is"@);
    crate::text::lemma_replace_absent(s1, "¤i_am"@, "this card is"@);
    crate::text::lemma_replace_absent(s1, "¤I"@, "This card"@);
    crate::text::lemma_replace_absent(s1, "¤i"@, "this card"@);
    crate::text::lemma_replace_absent(s1, "¤My"@, "This card's"@);
    crate::text::lemma_replace_absent(s1, "¤my"@, "this card's"@);
    crate::text::lemma_replace_absent(s1, "¤Set_my_pos_to_chosen"@, "Move this card to the chosen position"@);
    crate::text::lemma_replace_absent(s1, "¤set_my_pos_to_chosen"@, "move this card to the chosen position"@);
}

/// `¤choose_your_pos`, then a space and a text without `¤`: the command becomes `choose a friendly position`.
proof fn lemma_fixed_command_9(t: Seq<char>)
    requires
        !t.contains('\u{a4}'),
    ensures
        replace_fixed_commands("¤choose_your_pos"@ + seq![' '] + t) == "choose a friendly position"@ + seq![' '] + t,
        rules_text("¤choose_your_pos"@ + seq![' '] + t) == Some("choose a friendly position"@ + seq![' '] + t),
{
    reveal_strlit("Attach this card to the chosen card");
    reveal_strlit("Boost");
    reveal_strlit("Choose a friendly card");
    reveal_strlit("Choose a friendly position");
    reveal_strlit("Instant");
    reveal_strlit("Move this card to the chosen position");
    reveal_strlit("Passing");
    reveal_strlit("Quick");
    reveal_strlit("This card");
    reveal_strlit("This card has");
    reveal_strlit("This card is");
    reveal_strlit("This card's");
    reveal_strlit("attach this card to the chosen card");
    reveal_strlit("boost");
    reveal_strlit("choose a friendly card");
    reveal_strlit("choose a friendly position");
    reveal_strlit("move this card to the chosen position");
    reveal_strlit("this card");
    reveal_strlit("this card has");
    reveal_strlit("this card is");
    reveal_strlit("this card's");
    reveal_strlit("¤Attach_me_to_chosen");
    reveal_strlit("¤Boost");
    reveal_strlit("¤Choose_your_c");
    reveal_strlit("¤Choose_your_pos");
    reveal_strlit("¤I");
    reveal_strlit("¤I_am");
    reveal_strlit("¤I_have");
    reveal_strlit("¤Me");
    reveal_strlit("¤My");
    reveal_strlit("¤Set_my_pos_to_chosen");
    reveal_strlit("¤attach_me_to_chosen");
    reveal_strlit("¤choose_your_c");
    reveal_strlit("¤choose_your_pos");
    reveal_strlit("¤i");
    reveal_strlit("¤i_am");
    reveal_strlit("¤i_have");
    reveal_strlit("¤instant");
    reveal_strlit("¤me");
    reveal_strlit("¤my");
    reveal_strlit("¤passing");
    reveal_strlit("¤quick");
    reveal_strlit("¤set_my_pos_to_chosen");
    let s0 = "¤choose_your_pos"@ + seq![' '] + t;
    crate::text::lemma_mark_only_at_start("¤choose_your_pos"@, t);
    crate::text::lemma_replace_mismatch_at_start(s0, "¤quick"@, "Quick"@, 1);
    crate::text::lemma_replace_mismatch_at_start(s0, "¤instant"@, "Instant"@, 1);
    crate::text::lemma_replace_mismatch_at_start(s0, "¤passing"@, "Passing"@, 1);
    crate::text::lemma_replace_mismatch_at_start(s0, "¤Choose_your_c"@, "Choose a friendly card"@, 1);
    crate::text::lemma_replace_mismatch_at_start(s0, "¤choose_your_c"@, "choose a friendly card"@, 13);
    crate::text::lemma_replace_mismatch_at_start(s0, "¤Boost"@, "Boost"@, 1);
    crate::text::lemma_replace_mismatch_at_start(s0, "¤Boost"@, "boost"@, 1);
    crate::text::lemma_replace_mismatch_at_start(s0, "¤I_have"@, "This card has"@, 1);
    crate::text::lemma_replace_mismatch_at_start(s0, "¤i_have"@, "this card has"@, 1);
    crate::text::lemma_replace_mismatch_at_start(s0, "¤Choose_your_pos"@, "Choose a friendly position"@, 1);
    assert(s0.subrange(0, "¤choose_your_pos"@.len() as int) =~= "¤choose_your_pos"@);
    crate::text::lemma_replace_at_start(s0, "¤choose_your_pos"@, "choose a friendly position"@);
    let s1 = "choose a friendly position"@ + seq![' '] + t;
    assert(s0.subrange("¤choose_your_pos"@.len() as int, s0.len() as int) =~= seq![' '] + t);
    assert("choose a friendly position"@ + (seq![' '] + t) =~= s1);
    crate::text::lemma_no_mark_joined("choose a friendly position"@, t);
    crate::text::lemma_find_pat_absent(s1, summon_marker(), 0);
    crate::text::lemma_replace_absent(s1, "¤Attach_me_to_chosen"@, "Attach this card to the chosen card"@);
    crate::text::lemma_replace_absent(s1, "¤attach_me_to_chosen"@, "attach this card to the chosen card"@);
    crate::text::lemma_replace_absent(s1, "¤Me"@, "This card"@);
    crate::text::lemma_replace_absent(s1, "¤me"@, "this card"@);
    crate::text::lemma_replace_absent(s1, "¤I_am"@, "This card is"@);
    crate::text::lemma_replace_absent(s1, "¤i_am"@, "this card is"@);
    crate::text::lemma_replace_absent(s1, "¤I"@, "This card"@);
    crate::text::lemma_replace_absent(s1, "¤i"@, "this card"@);
    crate::text::lemma_replace_absent(s1, "¤My"@, "This card's"@);
    crate::text::lemma_replace_absent(s1, "¤my"@, "this card's"@);
    crate::text::lemma_replace_absent(s1, "¤Set_my_pos_to_chosen"@, "Move this card to the chosen position"@);
    crate::text::lemma_replace_absent(s1, "¤set_my_pos_to_chosen"@, "move this card to the chosen position"@);
}

/// `¤Attach_me_to_chosen`, then a space and a text without `¤`: the command becomes `Attach this card to the chosen card`.
proof fn lemma_fixed_command_10(t: Seq<char>)
    requires
        !t.contains('\u{a4}'),
    ensures
        replace_fixed_commands("¤Attach_me_to_chosen"@ + seq![' '] + t) == "Attach this card to the chosen card"@ + seq![' '] + t,
        rules_text("¤Attach_me_to_chosen"@ + seq![' '] + t) == Some("Attach this card to the chosen card"@ + seq![' '] + t),
{
    reveal_strlit("Attach this card to the chosen card");
    reveal_strlit("Boost");
    reveal_strlit("Choose a friendly card");
    reveal_strlit("Choose a friendly position");
    reveal_strlit("Instant");
    reveal_strlit("Move this card to the chosen position");
    reveal_strlit("Passing");
    reveal_strlit("Quick");
    reveal_strlit("This card");
    reveal_strlit("This card has");
    reveal_strlit("This card is");
    reveal_strlit("This card's");
    reveal_strlit("attach this card to the chosen card");
    reveal_strlit("boost");
    reveal_strlit("choose a friendly card");
    reveal_strlit("choose a friendly position");
    reveal_strlit("move this card to the chosen position");
    reveal_strlit("this card");
    reveal_strlit("this card has");
    reveal_strlit("this card is");
    reveal_strlit("this card's");
    reveal_strlit("¤Attach_me_to_chosen");
    reveal_strlit("¤Boost");
    reveal_strlit("¤Choose_your_c");
    reveal_strlit("¤Choose_your_pos");
    reveal_strlit("¤I");
    reveal_strlit("¤I_am");
    reveal_strlit("¤I_have");
    reveal_strlit("¤Me");
    reveal_strlit("¤My");
    reveal_strlit("¤Set_my_pos_to_chosen");
    reveal_strlit("¤attach_me_to_chosen");
    reveal_strlit("¤choose_your_c");
    reveal_strlit("¤choose_your_pos");
    reveal_strlit("¤i");
    reveal_strlit("¤i_am");
    reveal_strlit("¤i_have");
    reveal_strlit("¤instant");
    reveal_strlit("¤me");
    reveal_strlit("¤my");
    reveal_strlit("¤passing");
    reveal_strlit("¤quick");
    reveal_strlit("¤set_my_pos_to_chosen");
    let s0 = "¤Attach_me_to_chosen"@ + seq![' '] + t;
    crate::text::lemma_mark_only_at_start("¤Attach_me_to_chosen"@, t);
    crate::text::lemma_replace_mismatch_at_start(s0, "¤quick"@, "Quick"@, 1);
    crate::text::lemma_replace_mismatch_at_start(s0, "¤instant"@, "Instant"@, 1);
    crate::text::lemma_replace_mismatch_at_start(s0, "¤passing"@, "Passing"@, 1);
    crate::text::lemma_replace_mismatch_at_start(s0, "¤Choose_your_c"@, "Choose a friendly card"@, 1);
    crate::text::lemma_replace_mismatch_at_start(s0, "¤choose_your_c"@, "choose a friendly card"@, 1);
    crate::text::lemma_replace_mismatch_at_start(s0, "¤Boost"@, "Boost"@, 1);
    crate::text::lemma_replace_mismatch_at_start(s0, "¤Boost"@, "boost"@, 1);
    crate::text::lemma_replace_mismatch_at_start(s0, "¤I_have"@, "This card has"@, 1);
    crate::text::lemma_replace_mismatch_at_start(s0, "¤i_have"@, "this card has"@, 1);
    crate::text::lemma_replace_mismatch_at_start(s0, "¤Choose_your_pos"@, "Choose a friendly position"@, 1);
    crate::text::lemma_replace_mismatch_at_start(s0, "¤choose_your_pos"@, "choose a friendly position"@, 1);
    assert(s0.subrange(0, "¤Attach_me_to_chosen"@.len() as int) =~= "¤Attach_me_to_chosen"@);
    crate::text::lemma_replace_at_start(s0, "¤Attach_me_to_chosen"@, "Attach this card to the chosen card"@);
    let s1 = "Attach this card to the chosen card"@ + seq![' '] + t;
    assert(s0.subrange("¤Attach_me_to_chosen"@.len() as int, s0.len() as int) =~= seq![' '] + t);
    assert("Attach this card to the chosen card"@ + (seq![' '] + t) =~= s1);
    crate::text::lemma_no_mark_joined("Attach this card to the chosen card"@, t);
    crate::text::lemma_find_pat_absent(s1, summon_marker(), 0);
    crate::text::lemma_replace_absent(s1, "¤attach_me_to_chosen"@, "attach this card to the chosen card"@);
    crate::text::lemma_replace_absent(s1, "¤Me"@, "This card"@);
    crate::text::lemma_replace_absent(s1, "¤me"@, "this card"@);
    crate::text::lemma_replace_absent(s1, "¤I_am"@, "This card is"@);
    crate::text::lemma_replace_absent(s1, "¤i_am"@, "this card is"@);
    crate::text::lemma_replace_absent(s1, "¤I"@, "This card"@);
    crate::text::lemma_replace_absent(s1, "¤i"@, "this card"@);
    crate::text::lemma_replace_absent(s1, "¤My"@, "This card's"@);
    crate::text::lemma_replace_absent(s1, "¤my"@, "this card's"@);
    crate::text::lemma_replace_absent(s1, "¤Set_my_pos_to_chosen"@, "Move this card to the chosen position"@);
    crate::text::lemma_replace_absent(s1, "¤set_my_pos_to_chosen"@, "move this card to the chosen position"@);
}

/// `¤attach_me_to_chosen`, then a space and a text without `¤`: the command becomes `attach this card to the chosen card`.
proof fn lemma_fixed_command_11(t: Seq<char>)
    requires
        !t.contains('\u{a4}'),
    ensures
        replace_fixed_commands("¤attach_me_to_chosen"@ + seq![' '] + t) == "attach this card to the chosen card"@ + seq![' '] + t,
        rules_text("¤attach_me_to_chosen"@ + seq![' '] + t) == Some("attach this card to the chosen card"@ + seq![' '] + t),
{
    reveal_strlit("Attach this card to the chosen card");
    reveal_strlit("Boost");
    reveal_strlit("Choose a friendly card");
    reveal_strlit("Choose a friendly position");
    reveal_strlit("Instant");
    reveal_strlit("Move this card to the chosen position");
    reveal_strlit("Passing");
    reveal_strlit("Quick");
    reveal_strlit("This card");
    reveal_strlit("This card has");
    reveal_strlit("This card is");
    reveal_strlit("This card's");
    reveal_strlit("attach this card to the chosen card");
    reveal_strlit("boost");
    reveal_strlit("choose a friendly card");
    reveal_strlit("choose a friendly position");
    reveal_strlit("move this card to the chosen position");
    reveal_strlit("this card");
    reveal_strlit("this card has");
    reveal_strlit("this card is");
    reveal_strlit("this card's");
    reveal_strlit("¤Attach_me_to_chosen");
    reveal_strlit("¤Boost");
    reveal_strlit("¤Choose_your_c");
    reveal_strlit("¤Choose_your_pos");
    reveal_strlit("¤I");
    reveal_strlit("¤I_am");
    reveal_strlit("¤I_have");
    reveal_strlit("¤Me");
    reveal_strlit("¤My");
    reveal_strlit("¤Set_my_pos_to_chosen");
    reveal_strlit("¤attach_me_to_chosen");
    reveal_strlit("¤choose_your_c");
    reveal_strlit("¤choose_your_pos");
    reveal_strlit("¤i");
    reveal_strlit("¤i_am");
    reveal_strlit("¤i_have");
    reveal_strlit("¤instant");
    reveal_strlit("¤me");
    reveal_strlit("¤my");
    reveal_strlit("¤passing");
    reveal_strlit("¤quick");
    reveal_strlit("¤set_my_pos_to_chosen");
    let s0 = "¤attach_me_to_chosen"@ + seq![' '] + t;
    crate::text::lemma_mark_only_at_start("¤attach_me_to_chosen"@, t);
    crate::text::lemma_replace_mismatch_at_start(s0, "¤quick"@, "Quick"@, 1);
    crate::text::lemma_replace_mismatch_at_start(s0, "¤instant"@, "Instant"@, 1);
    crate::text::lemma_replace_mismatch_at_start(s0, "¤passing"@, "Passing"@, 1);
    crate::text::lemma_replace_mismatch_at_start(s0, "¤Choose_your_c"@, "Choose a friendly card"@, 1);
    crate::text::lemma_replace_mismatch_at_start(s0, "¤choose_your_c"@, "choose a friendly card"@, 1);
    crate::text::lemma_replace_mismatch_at_start(s0, "¤Boost"@, "Boost"@, 1);
    crate::text::lemma_replace_mismatch_at_start(s0, "¤Boost"@, "boost"@, 1);
    crate::text::lemma_replace_mismatch_at_start(s0, "¤I_have"@, "This card has"@, 1);
    crate::text::lemma_replace_mismatch_at_start(s0, "¤i_have"@, "this card has"@, 1);
    crate::text::lemma_replace_mismatch_at_start(s0, "¤Choose_your_pos"@, "Choose a friendly position"@, 1);
    crate::text::lemma_replace_mismatch_at_start(s0, "¤choose_your_pos"@, "choose a friendly position"@, 1);
    crate::text::lemma_replace_mismatch_at_start(s0, "¤Attach_me_to_chosen"@, "Attach this card to the chosen card"@, 1);
    assert(s0.subrange(0, "¤attach_me_to_chosen"@.len() as int) =~= "¤attach_me_to_chosen"@);
    crate::text::lemma_replace_at_start(s0, "¤attach_me_to_chosen"@, "attach this card to the chosen card"@);
    let s1 = "attach this card to the chosen card"@ + seq![' '] + t;
    assert(s0.subrange("¤attach_me_to_chosen"@.len() as int, s0.len() as int) =~= seq![' '] + t);
    assert("attach this card to the chosen card"@ + (seq![' '] + t) =~= s1);
    crate::text::lemma_no_mark_joined("attach this card to the chosen card"@, t);
    crate::text::lemma_find_pat_absent(s1, summon_marker(), 0);
    crate::text::lemma_replace_absent(s1, "¤Me"@, "This card"@);
    crate::text::lemma_replace_absent(s1, "¤me"@, "this card"@);
    crate::text::lemma_replace_absent(s1, "¤I_am"@, "This card is"@);
    crate::text::lemma_replace_absent(s1, "¤i_am"@, "this card is"@);
    crate::text::lemma_replace_absent(s1, "¤I"@, "This card"@);
    crate::text::lemma_replace_absent(s1, "¤i"@, "this card"@);
    crate::text::lemma_replace_absent(s1, "¤My"@, "This card's"@);
    crate::text::lemma_replace_absent(s1, "¤my"@, "this card's"@);
    crate::text::lemma_replace_absent(s1, "¤Set_my_pos_to_chosen"@, "Move this card to the chosen position"@);
    crate::text::lemma_replace_absent(s1, "¤set_my_pos_to_chosen"@, "move this card to the chosen position"@);
}

/// `¤Me`, then a space and a text without `¤`: the command becomes `This card`.
proof fn lemma_fixed_command_12(t: Seq<char>)
    requires
        !t.contains('\u{a4}'),
    ensures
        replace_fixed_commands("¤Me"@ + seq![' '] + t) == "This card"@ + seq![' '] + t,
        rules_text("¤Me"@ + seq![' '] + t) == Some("This card"@ + seq![' '] + t),
{
    reveal_strlit("Attach this card to the chosen card");
    reveal_strlit("Boost");
    reveal_strlit("Choose a friendly card");
    reveal_strlit("Choose a friendly position");
    reveal_strlit("Instant");
    reveal_strlit("Move this card to the chosen position");
    reveal_strlit("Passing");
    reveal_strlit("Quick");
    reveal_strlit("This card");
    reveal_strlit("This card has");
    reveal_strlit("This card is");
    reveal_strlit("This card's");
    reveal_strlit("attach this card to the chosen card");
    reveal_strlit("boost");
    reveal_strlit("choose a friendly card");
    reveal_strlit("choose a friendly position");
    reveal_strlit("move this card to the chosen position");
    reveal_strlit("this card");
    reveal_strlit("this card has");
    reveal_strlit("this card is");
    reveal_strlit("this card's");
    reveal_strlit("¤Attach_me_to_chosen");
    reveal_strlit("¤Boost");
    reveal_strlit("¤Choose_your_c");
    reveal_strlit("¤Choose_your_pos");
    reveal_strlit("¤I");
    reveal_strlit("¤I_am");
    reveal_strlit("¤I_have");
    reveal_strlit("¤Me");
    reveal_strlit("¤My");
    reveal_strlit("¤Set_my_pos_to_chosen");
    reveal_strlit("¤attach_me_to_chosen");
    reveal_strlit("¤choose_your_c");
    reveal_strlit("¤choose_your_pos");
    reveal_strlit("¤i");
    reveal_strlit("¤i_am");
    reveal_strlit("¤i_have");
    reveal_strlit("¤instant");
    reveal_strlit("¤me");
    reveal_strlit("¤my");
    reveal_strlit("¤passing");
    reveal_strlit("¤quick");
    reveal_strlit("¤set_my_pos_to_chosen");
    let s0 = "¤Me"@ + seq![' '] + t;
    crate::text::lemma_mark_only_at_start("¤Me"@, t);
    crate::text::lemma_replace_mismatch_at_start(s0, "¤quick"@, "Quick"@, 1);
    crate::text::lemma_replace_mismatch_at_start(s0, "¤instant"@, "Instant"@, 1);
    crate::text::lemma_replace_mismatch_at_start(s0, "¤passing"@, "Passing"@, 1);
    crate::text::lemma_replace_mismatch_at_start(s0, "¤Choose_your_c"@, "Choose a friendly card"@, 1);
    crate::text::lemma_replace_mismatch_at_start(s0, "¤choose_your_c"@, "choose a friendly card"@, 1);
    crate::text::lemma_replace_mismatch_at_start(s0, "¤Boost"@, "Boost"@, 1);
    crate::text::lemma_replace_mismatch_at_start(s0, "¤Boost"@, "boost"@, 1);
    crate::text::lemma_replace_mismatch_at_start(s0, "¤I_have"@, "This card has"@, 1);
    crate::text::lemma_replace_mismatch_at_start(s0, "¤i_have"@, "this card has"@, 1);
    crate::text::lemma_replace_mismatch_at_start(s0, "¤Choose_your_pos"@, "Choose a friendly position"@, 1);
    crate::text::lemma_replace_mismatch_at_start(s0, "¤choose_your_pos"@, "choose a friendly position"@, 1);
    crate::text::lemma_replace_mismatch_at_start(s0, "¤Attach_me_to_chosen"@, "Attach this card to the chosen card"@, 1);
    crate::text::lemma_replace_mismatch_at_start(s0, "¤attach_me_to_chosen"@, "attach this card to the chosen card"@, 1);
    assert(s0.subrange(0, "¤Me"@.len() as int) =~= "¤Me"@);
    crate::text::lemma_replace_at_start(s0, "¤Me"@, "This card"@);
    let s1 = "This card"@ + seq![' '] + t;
    assert(s0.subrange("¤Me"@.len() as int, s0.len() as int) =~= seq![' '] + t);
    assert("This card"@ + (seq![' '] + t) =~= s1);
    crate::text::lemma_no_mark_joined("This card"@, t);
    crate::text::lemma_find_pat_absent(s1, summon_marker(), 0);
    crate::text::lemma_replace_absent(s1, "¤me"@, "this card"@);
    crate::text::lemma_replace_absent(s1, "¤I_am"@, "This card is"@);
    crate::text::lemma_replace_absent(s1, "¤i_am"@, "this card is"@);
    crate::text::lemma_replace_absent(s1, "¤I"@, "This card"@);
    crate::text::lemma_replace_absent(s1, "¤i"@, "this card"@);
    crate::text::lemma_replace_absent(s1, "¤My"@, "This card's"@);
    crate::text::lemma_replace_absent(s1, "¤my"@, "this card's"@);
    crate::text::lemma_replace_absent(s1, "¤Set_my_pos_to_chosen"@, "Move this card to the chosen position"@);
    crate::text::lemma_replace_absent(s1, "¤set_my_pos_to_chosen"@, "move this card to the chosen position"@);
}

/// `¤me`, then a space and a text without `¤`: the command becomes `this card`.
proof fn lemma_fixed_command_13(t: Seq<char>)
    requires
        !t.contains('\u{a4}'),
    ensures
        replace_fixed_commands("¤me"@ + seq![' '] + t) == "this card"@ + seq![' '] + t,
        rules_text("¤me"@ + seq![' '] + t) == Some("this card"@ + seq![' '] + t),
{
    reveal_strlit("Attach this card to the chosen card");
    reveal_strlit("Boost");
    reveal_strlit("Choose a friendly card");
    reveal_strlit("Choose a friendly position");
    reveal_strlit("Instant");
    reveal_strlit("Move this card to the chosen position");
    reveal_strlit("Passing");
    reveal_strlit("Quick");
    reveal_strlit("This card");
    reveal_strlit("This card has");
    reveal_strlit("This card is");
    reveal_strlit("This card's");
    reveal_strlit("attach this card to the chosen card");
    reveal_strlit("boost");
    reveal_strlit("choose a friendly card");
    reveal_strlit("choose a friendly position");
    reveal_strlit("move this card to the chosen position");
    reveal_strlit("this card");
    reveal_strlit("this card has");
    reveal_strlit("this card is");
    reveal_strlit("this card's");
    reveal_strlit("¤Attach_me_to_chosen");
    reveal_strlit("¤Boost");
    reveal_strlit("¤Choose_your_c");
    reveal_strlit("¤Choose_your_pos");
    reveal_strlit("¤I");
    reveal_strlit("¤I_am");
    reveal_strlit("¤I_have");
    reveal_strlit("¤Me");
    reveal_strlit("¤My");
    reveal_strlit("¤Set_my_pos_to_chosen");
    reveal_strlit("¤attach_me_to_chosen");
    reveal_strlit("¤choose_your_c");
    reveal_strlit("¤choose_your_pos");
    reveal_strlit("¤i");
    reveal_strlit("¤i_am");
    reveal_strlit("¤i_have");
    reveal_strlit("¤instant");
    reveal_strlit("¤me");
    reveal_strlit("¤my");
    reveal_strlit("¤passing");
    reveal_strlit("¤quick");
    reveal_strlit("¤set_my_pos_to_chosen");
    let s0 = "¤me"@ + seq![' '] + t;
    crate::text::lemma_mark_only_at_start("¤me"@, t);
    crate::text::lemma_replace_mismatch_at_start(s0, "¤quick"@, "Quick"@, 1);
    crate::text::lemma_replace_mismatch_at_start(s0, "¤instant"@, "Instant"@, 1);
    crate::text::lemma_replace_mismatch_at_start(s0, "¤passing"@, "Passing"@, 1);
    crate::text::lemma_replace_mismatch_at_start(s0, "¤Choose_your_c"@, "Choose a friendly card"@, 1);
    crate::text::lemma_replace_mismatch_at_start(s0, "¤choose_your_c"@, "choose a friendly card"@, 1);
    crate::text::lemma_replace_mismatch_at_start(s0, "¤Boost"@, "Boost"@, 1);
    crate::text::lemma_replace_mismatch_at_start(s0, "¤Boost"@, "boost"@, 1);
    crate::text::lemma_replace_mismatch_at_start(s0, "¤I_have"@, "This card has"@, 1);
    crate::text::lemma_replace_mismatch_at_start(s0, "¤i_have"@, "this card has"@, 1);
    crate::text::lemma_replace_mismatch_at_start(s0, "¤Choose_your_pos"@, "Choose a friendly position"@, 1);
    crate::text::lemma_replace_mismatch_at_start(s0, "¤choose_your_pos"@, "choose a friendly position"@, 1);
    crate::text::lemma_replace_mismatch_at_start(s0, "¤Attach_me_to_chosen"@, "Attach this card to the chosen card"@, 1);
    crate::text::lemma_replace_mismatch_at_start(s0, "¤attach_me_to_chosen"@, "attach this card to the chosen card"@, 1);
    crate::text::lemma_replace_mismatch_at_start(s0, "¤Me"@, "This card"@, 1);
    assert(s0.subrange(0, "¤me"@.len() as int) =~= "¤me"@);
    crate::text::lemma_replace_at_start(s0, "¤me"@, "this card"@);
    let s1 = "this card"@ + seq![' '] + t;
    assert(s0.subrange("¤me"@.len() as int, s0.len() as int) =~= seq![' '] + t);
    assert("this card"@ + (seq![' '] + t) =~= s1);
    crate::text::lemma_no_mark_joined("this card"@, t);
    crate::text::lemma_find_pat_absent(s1, summon_marker(), 0);
    crate::text::lemma_replace_absent(s1, "¤I_am"@, "This card is"@);
    crate::text::lemma_replace_absent(s1, "¤i_am"@, "this card is"@);
    crate::text::lemma_replace_absent(s1, "¤I"@, "This card"@);
    crate::text::lemma_replace_absent(s1, "¤i"@, "this card"@);
    crate::text::lemma_replace_absent(s1, "¤My"@, "This card's"@);
    crate::text::lemma_replace_absent(s1, "¤my"@, "this card's"@);
    crate::text::lemma_replace_absent(s1, "¤Set_my_pos_to_chosen"@, "Move this card to the chosen position"@);
    crate::text::lemma_replace_absent(s1, "¤set_my_pos_to_chosen"@, "move this card to the chosen position"@);
}

/// `¤I_am`, then a space and a text without `¤`: the command becomes `This card is`.
proof fn lemma_fixed_command_14(t: Seq<char>)
    requires
        !t.contains('\u{a4}'),
    ensures
        replace_fixed_commands("¤I_am"@ + seq![' '] + t) == "This card is"@ + seq![' '] + t,
        rules_text("¤I_am"@ + seq![' '] + t) == Some("This card is"@ + seq![' '] + t),
{
    reveal_strlit("Attach this card to the chosen card");
    reveal_strlit("Boost");
    reveal_strlit("Choose a friendly card");
    reveal_strlit("Choose a friendly position");
    reveal_strlit("Instant");
    reveal_strlit("Move this card to the chosen position");
    reveal_strlit("Passing");
    reveal_strlit("Quick");
    reveal_strlit("This card");
    reveal_strlit("This card has");
    reveal_strlit("This card is");
    reveal_strlit("This card's");
    reveal_strlit("attach this card to the chosen card");
    reveal_strlit("boost");
    reveal_strlit("choose a friendly card");
    reveal_strlit("choose a friendly position");
    reveal_strlit("move this card to the chosen position");
    reveal_strlit("this card");
    reveal_strlit("this card has");
    reveal_strlit("this card is");
    reveal_strlit("this card's");
    reveal_strlit("¤Attach_me_to_chosen");
    reveal_strlit("¤Boost");
    reveal_strlit("¤Choose_your_c");
    reveal_strlit("¤Choose_your_pos");
    reveal_strlit("¤I");
    reveal_strlit("¤I_am");
    reveal_strlit("¤I_have");
    reveal_strlit("¤Me");
    reveal_strlit("¤My");
    reveal_strlit("¤Set_my_pos_to_chosen");
    reveal_strlit("¤attach_me_to_chosen");
    reveal_strlit("¤choose_your_c");
    reveal_strlit("¤choose_your_pos");
    reveal_strlit("¤i");
    reveal_strlit("¤i_am");
    reveal_strlit("¤i_have");
    reveal_strlit("¤instant");
    reveal_strlit("¤me");
    reveal_strlit("¤my");
    reveal_strlit("¤passing");
    reveal_strlit("¤quick");
    reveal_strlit("¤set_my_pos_to_chosen");
    let s0 = "¤I_am"@ + seq![' '] + t;
    crate::text::lemma_mark_only_at_start("¤I_am"@, t);
    crate::text::lemma_replace_mismatch_at_start(s0, "¤quick"@, "Quick"@, 1);
    crate::text::lemma_replace_mismatch_at_start(s0, "¤instant"@, "Instant"@, 1);
    crate::text::lemma_replace_mismatch_at_start(s0, "¤passing"@, "Passing"@, 1);
    crate::text::lemma_replace_mismatch_at_start(s0, "¤Choose_your_c"@, "Choose a friendly card"@, 1);
    crate::text::lemma_replace_mismatch_at_start(s0, "¤choose_your_c"@, "choose a friendly card"@, 1);
    crate::text::lemma_replace_mismatch_at_start(s0, "¤Boost"@, "Boost"@, 1);
    crate::text::lemma_replace_mismatch_at_start(s0, "¤Boost"@, "boost"@, 1);
    crate::text::lemma_replace_mismatch_at_start(s0, "¤I_have"@, "This card has"@, 3);
    crate::text::lemma_replace_mismatch_at_start(s0, "¤i_have"@, "this card has"@, 1);
    crate::text::lemma_replace_mismatch_at_start(s0, "¤Choose_your_pos"@, "Choose a friendly position"@, 1);
    crate::text::lemma_replace_mismatch_at_start(s0, "¤choose_your_pos"@, "choose a friendly position"@, 1);
    crate::text::lemma_replace_mismatch_at_start(s0, "¤Attach_me_to_chosen"@, "Attach this card to the chosen card"@, 1);
    crate::text::lemma_replace_mismatch_at_start(s0, "¤attach_me_to_chosen"@, "attach this card to the chosen card"@, 1);
    crate::text::lemma_replace_mismatch_at_start(s0, "¤Me"@, "This card"@, 1);
    crate::text::lemma_replace_mismatch_at_start(s0, "¤me"@, "this card"@, 1);
    assert(s0.subrange(0, "¤I_am"@.len() as int) =~= "¤I_am"@);
    crate::text::lemma_replace_at_start(s0, "¤I_am"@, "This card is"@);
    let s1 = "This card is"@ + seq![' '] + t;
    assert(s0.subrange("¤I_am"@.len() as int, s0.len() as int) =~= seq![' '] + t);
    assert("This card is"@ + (seq![' '] + t) =~= s1);
    crate::text::lemma_no_mark_joined("This card is"@, t);
    crate::text::lemma_find_pat_absent(s1, summon_marker(), 0);
    crate::text::lemma_replace_absent(s1, "¤i_am"@, "this card is"@);
    crate::text::lemma_replace_absent(s1, "¤I"@, "This card"@);
    crate::text::lemma_replace_absent(s1, "¤i"@, "this card"@);
    crate::text::lemma_replace_absent(s1, "¤My"@, "This card's"@);
    crate::text::lemma_replace_absent(s1, "¤my"@, "this card's"@);
    crate::text::lemma_replace_absent(s1, "¤Set_my_pos_to_chosen"@, "Move this card to the chosen position"@);
    crate::text::lemma_replace_absent(s1, "¤set_my_pos_to_chosen"@, "move this card to the chosen position"@);
}

/// `¤i_am`, then a space and a text without `¤`: the command becomes `this card is`.
proof fn lemma_fixed_command_15(t: Seq<char>)
    requires
        !t.contains('\u{a4}'),
    ensures
        replace_fixed_commands("¤i_am"@ + seq![' '] + t) == "this card is"@ + seq![' '] + t,
        rules_text("¤i_am"@ + seq![' '] + t) == Some("this card is"@ + seq![' '] + t),
{
    reveal_strlit("Attach this card to the chosen card");
    reveal_strlit("Boost");
    reveal_strlit("Choose a friendly card");
    reveal_strlit("Choose a friendly position");
    reveal_strlit("Instant");
    reveal_strlit("Move this card to the chosen position");
    reveal_strlit("Passing");
    reveal_strlit("Quick");
    reveal_strlit("This card");
    reveal_strlit("This card has");
    reveal_strlit("This card is");
    reveal_strlit("This card's");
    reveal_strlit("attach this card to the chosen card");
    reveal_strlit("boost");
    reveal_strlit("choose a friendly card");
    reveal_strlit("choose a friendly position");
    reveal_strlit("move this card to the chosen position");
    reveal_strlit("this card");
    reveal_strlit("this card has");
    reveal_strlit("this card is");
    reveal_strlit("this card's");
    reveal_strlit("¤Attach_me_to_chosen");
    reveal_strlit("¤Boost");
    reveal_strlit("¤Choose_your_c");
    reveal_strlit("¤Choose_your_pos");
    reveal_strlit("¤I");
    reveal_strlit("¤I_am");
    reveal_strlit("¤I_have");
    reveal_strlit("¤Me");
    reveal_strlit("¤My");
    reveal_strlit("¤Set_my_pos_to_chosen");
    reveal_strlit("¤attach_me_to_chosen");
    reveal_strlit("¤choose_your_c");
    reveal_strlit("¤choose_your_pos");
    reveal_strlit("¤i");
    reveal_strlit("¤i_am");
    reveal_strlit("¤i_have");
    reveal_strlit("¤instant");
    reveal_strlit("¤me");
    reveal_strlit("¤my");
    reveal_strlit("¤passing");
    reveal_strlit("¤quick");
    reveal_strlit("¤set_my_pos_to_chosen");
    let s0 = "¤i_am"@ + seq![' '] + t;
    crate::text::lemma_mark_only_at_start("¤i_am"@, t);
    crate::text::lemma_replace_mismatch_at_start(s0, "¤quick"@, "Quick"@, 1);
    crate::text::lemma_replace_mismatch_at_start(s0, "¤instant"@, "Instant"@, 2);
    crate::text::lemma_replace_mismatch_at_start(s0, "¤passing"@, "Passing"@, 1);
    crate::text::lemma_replace_mismatch_at_start(s0, "¤Choose_your_c"@, "Choose a friendly card"@, 1);
    crate::text::lemma_replace_mismatch_at_start(s0, "¤choose_your_c"@, "choose a friendly card"@, 1);
    crate::text::lemma_replace_mismatch_at_start(s0, "¤Boost"@, "Boost"@, 1);
    crate::text::lemma_replace_mismatch_at_start(s0, "¤Boost"@, "boost"@, 1);
    crate::text::lemma_replace_mismatch_at_start(s0, "¤I_have"@, "This card has"@, 1);
    crate::text::lemma_replace_mismatch_at_start(s0, "¤i_have"@, "this card has"@, 3);
    crate::text::lemma_replace_mismatch_at_start(s0, "¤Choose_your_pos"@, "Choose a friendly position"@, 1);
    crate::text::lemma_replace_mismatch_at_start(s0, "¤choose_your_pos"@, "choose a friendly position"@, 1);
    crate::text::lemma_replace_mismatch_at_start(s0, "¤Attach_me_to_chosen"@, "Attach this card to the chosen card"@, 1);
    crate::text::lemma_replace_mismatch_at_start(s0, "¤attach_me_to_chosen"@, "attach this card to the chosen card"@, 1);
    crate::text::lemma_replace_mismatch_at_start(s0, "¤Me"@, "This card"@, 1);
    crate::text::lemma_replace_mismatch_at_start(s0, "¤me"@, "this card"@, 1);
    crate::text::lemma_replace_mismatch_at_start(s0, "¤I_am"@, "This card is"@, 1);
    assert(s0.subrange(0, "¤i_am"@.len() as int) =~= "¤i_am"@);
    crate::text::lemma_replace_at_start(s0, "¤i_am"@, "this card is"@);
    let s1 = "this card is"@ + seq![' '] + t;
    assert(s0.subrange("¤i_am"@.len() as int, s0.len() as int) =~= seq![' '] + t);
    assert("this card is"@ + (seq![' '] + t) =~= s1);
    crate::text::lemma_no_mark_joined("this card is"@, t);
    crate::text::lemma_find_pat_absent(s1, summon_marker(), 0);
    crate::text::lemma_replace_absent(s1, "¤I"@, "This card"@);
    crate::text::lemma_replace_absent(s1, "¤i"@, "this card"@);
    crate::text::lemma_replace_absent(s1, "¤My"@, "This card's"@);
    crate::text::lemma_replace_absent(s1, "¤my"@, "this card's"@);
    crate::text::lemma_replace_absent(s1, "¤Set_my_pos_to_chosen"@, "Move this card to the chosen position"@);
    crate::text::lemma_replace_absent(s1, "¤set_my_pos_to_chosen"@, "move this card to the chosen position"@);
}

/// `¤I`, then a space and a text without `¤`: the command becomes `This card`.
proof fn lemma_fixed_command_16(t: Seq<char>)
    requires
        !t.contains('\u{a4}'),
    ensures
        replace_fixed_commands("¤I"@ + seq![' '] + t) == "This card"@ + seq![' '] + t,
        rules_text("¤I"@ + seq![' '] + t) == Some("This card"@ + seq![' '] + t),
{
    reveal_strlit("Attach this card to the chosen card");
    reveal_strlit("Boost");
    reveal_strlit("Choose a friendly card");
    reveal_strlit("Choose a friendly position");
    reveal_strlit("Instant");
    reveal_strlit("Move this card to the chosen position");
    reveal_strlit("Passing");
    reveal_strlit("Quick");
    reveal_strlit("This card");
    reveal_strlit("This card has");
    reveal_strlit("This card is");
    reveal_strlit("This card's");
    reveal_strlit("attach this card to the chosen card");
    reveal_strlit("boost");
    reveal_strlit("choose a friendly card");
    reveal_strlit("choose a friendly position");
    reveal_strlit("move this card to the chosen position");
    reveal_strlit("this card");
    reveal_strlit("this card has");
    reveal_strlit("this card is");
    reveal_strlit("this card's");
    reveal_strlit("¤Attach_me_to_chosen");
    reveal_strlit("¤Boost");
    reveal_strlit("¤Choose_your_c");
    reveal_strlit("¤Choose_your_pos");
    reveal_strlit("¤I");
    reveal_strlit("¤I_am");
    reveal_strlit("¤I_have");
    reveal_strlit("¤Me");
    reveal_strlit("¤My");
    reveal_strlit("¤Set_my_pos_to_chosen");
    reveal_strlit("¤attach_me_to_chosen");
    reveal_strlit("¤choose_your_c");
    reveal_strlit("¤choose_your_pos");
    reveal_strlit("¤i");
    reveal_strlit("¤i_am");
    reveal_strlit("¤i_have");
    reveal_strlit("¤instant");
    reveal_strlit("¤me");
    reveal_strlit("¤my");
    reveal_strlit("¤passing");
    reveal_strlit("¤quick");
    reveal_strlit("¤set_my_pos_to_chosen");
    let s0 = "¤I"@ + seq![' '] + t;
    crate::text::lemma_mark_only_at_start("¤I"@, t);
    crate::text::lemma_replace_mismatch_at_start(s0, "¤quick"@, "Quick"@, 1);
    crate::text::lemma_replace_mismatch_at_start(s0, "¤instant"@, "Instant"@, 1);
    crate::text::lemma_replace_mismatch_at_start(s0, "¤passing"@, "Passing"@, 1);
    crate::text::lemma_replace_mismatch_at_start(s0, "¤Choose_your_c"@, "Choose a friendly card"@, 1);
    crate::text::lemma_replace_mismatch_at_start(s0, "¤choose_your_c"@, "choose a friendly card"@, 1);
    crate::text::lemma_replace_mismatch_at_start(s0, "¤Boost"@, "Boost"@, 1);
    crate::text::lemma_replace_mismatch_at_start(s0, "¤Boost"@, "boost"@, 1);
    crate::text::lemma_replace_mismatch_at_start(s0, "¤I_have"@, "This card has"@, 2);
    crate::text::lemma_replace_mismatch_at_start(s0, "¤i_have"@, "this card has"@, 1);
    crate::text::lemma_replace_mismatch_at_start(s0, "¤Choose_your_pos"@, "Choose a friendly position"@, 1);
    crate::text::lemma_replace_mismatch_at_start(s0, "¤choose_your_pos"@, "choose a friendly position"@, 1);
    crate::text::lemma_replace_mismatch_at_start(s0, "¤Attach_me_to_chosen"@, "Attach this card to the chosen card"@, 1);
    crate::text::lemma_replace_mismatch_at_start(s0, "¤attach_me_to_chosen"@, "attach this card to the chosen card"@, 1);
    crate::text::lemma_replace_mismatch_at_start(s0, "¤Me"@, "This card"@, 1);
    crate::text::lemma_replace_mismatch_at_start(s0, "¤me"@, "this card"@, 1);
    crate::text::lemma_replace_mismatch_at_start(s0, "¤I_am"@, "This card is"@, 2);
    crate::text::lemma_replace_mismatch_at_start(s0, "¤i_am"@, "this card is"@, 1);
    assert(s0.subrange(0, "¤I"@.len() as int) =~= "¤I"@);
    crate::text::lemma_replace_at_start(s0, "¤I"@, "This card"@);
    let s1 = "This card"@ + seq![' '] + t;
    assert(s0.subrange("¤I"@.len() as int, s0.len() as int) =~= seq![' '] + t);
    assert("This card"@ + (seq![' '] + t) =~= s1);
    crate::text::lemma_no_mark_joined("This card"@, t);
    crate::text::lemma_find_pat_absent(s1, summon_marker(), 0);
    crate::text::lemma_replace_absent(s1, "¤i"@, "this card"@);
    crate::text::lemma_replace_absent(s1, "¤My"@, "This card's"@);
    crate::text::lemma_replace_absent(s1, "¤my"@, "this card's"@);
    crate::text::lemma_replace_absent(s1, "¤Set_my_pos_to_chosen"@, "Move this card to the chosen position"@);
    crate::text::lemma_replace_absent(s1, "¤set_my_pos_to_chosen"@, "move this card to the chosen position"@);
}

/// `¤i`, then a space and a text without `¤`: the command becomes `this card`.
proof fn lemma_fixed_command_17(t: Seq<char>)
    requires
        !t.contains('\u{a4}'),
    ensures
        replace_fixed_commands("¤i"@ + seq![' '] + t) == "this card"@ + seq![' '] + t,
        rules_text("¤i"@ + seq![' '] + t) == Some("this card"@ + seq![' '] + t),
{
    reveal_strlit("Attach this card to the chosen card");
    reveal_strlit("Boost");
    reveal_strlit("Choose a friendly card");
    reveal_strlit("Choose a friendly position");
    reveal_strlit("Instant");
    reveal_strlit("Move this card to the chosen position");
    reveal_strlit("Passing");
    reveal_strlit("Quick");
    reveal_strlit("This card");
    reveal_strlit("This card has");
    reveal_strlit("This card is");
    reveal_strlit("This card's");
    reveal_strlit("attach this card to the chosen card");
    reveal_strlit("boost");
    reveal_strlit("choose a friendly card");
    reveal_strlit("choose a friendly position");
    reveal_strlit("move this card to the chosen position");
    reveal_strlit("this card");
    reveal_strlit("this card has");
    reveal_strlit("this card is");
    reveal_strlit("this card's");
    reveal_strlit("¤Attach_me_to_chosen");
    reveal_strlit("¤Boost");
    reveal_strlit("¤Choose_your_c");
    reveal_strlit("¤Choose_your_pos");
    reveal_strlit("¤I");
    reveal_strlit("¤I_am");
    reveal_strlit("¤I_have");
    reveal_strlit("¤Me");
    reveal_strlit("¤My");
    reveal_strlit("¤Set_my_pos_to_chosen");
    reveal_strlit("¤attach_me_to_chosen");
    reveal_strlit("¤choose_your_c");
    reveal_strlit("¤choose_your_pos");
    reveal_strlit("¤i");
    reveal_strlit("¤i_am");
    reveal_strlit("¤i_have");
    reveal_strlit("¤instant");
    reveal_strlit("¤me");
    reveal_strlit("¤my");
    reveal_strlit("¤passing");
    reveal_strlit("¤quick");
    reveal_strlit("¤set_my_pos_to_chosen");
    let s0 = "¤i"@ + seq![' '] + t;
    crate::text::lemma_mark_only_at_start("¤i"@, t);
    crate::text::lemma_replace_mismatch_at_start(s0, "¤quick"@, "Quick"@, 1);
    crate::text::lemma_replace_mismatch_at_start(s0, "¤instant"@, "Instant"@, 2);
    crate::text::lemma_replace_mismatch_at_start(s0, "¤passing"@, "Passing"@, 1);
    crate::text::lemma_replace_mismatch_at_start(s0, "¤Choose_your_c"@, "Choose a friendly card"@, 1);
    crate::text::lemma_replace_mismatch_at_start(s0, "¤choose_your_c"@, "choose a friendly card"@, 1);
    crate::text::lemma_replace_mismatch_at_start(s0, "¤Boost"@, "Boost"@, 1);
    crate::text::lemma_replace_mismatch_at_start(s0, "¤Boost"@, "boost"@, 1);
    crate::text::lemma_replace_mismatch_at_start(s0, "¤I_have"@, "This card has"@, 1);
    crate::text::lemma_replace_mismatch_at_start(s0, "¤i_have"@, "this card has"@, 2);
    crate::text::lemma_replace_mismatch_at_start(s0, "¤Choose_your_pos"@, "Choose a friendly position"@, 1);
    crate::text::lemma_replace_mismatch_at_start(s0, "¤choose_your_pos"@, "choose a friendly position"@, 1);
    crate::text::lemma_replace_mismatch_at_start(s0, "¤Attach_me_to_chosen"@, "Attach this card to the chosen card"@, 1);
    crate::text::lemma_replace_mismatch_at_start(s0, "¤attach_me_to_chosen"@, "attach this card to the chosen card"@, 1);
    crate::text::lemma_replace_mismatch_at_start(s0, "¤Me"@, "This card"@, 1);
    crate::text::lemma_replace_mismatch_at_start(s0, "¤me"@, "this card"@, 1);
    crate::text::lemma_replace_mismatch_at_start(s0, "¤I_am"@, "This card is"@, 1);
    crate::text::lemma_replace_mismatch_at_start(s0, "¤i_am"@, "this card is"@, 2);
    crate::text::lemma_replace_mismatch_at_start(s0, "¤I"@, "This card"@, 1);
    assert(s0.subrange(0, "¤i"@.len() as int) =~= "¤i"@);
    crate::text::lemma_replace_at_start(s0, "¤i"@, "this card"@);
    let s1 = "this card"@ + seq![' '] + t;
    assert(s0.subrange("¤i"@.len() as int, s0.len() as int) =~= seq![' '] + t);
    assert("this card"@ + (seq![' '] + t) =~= s1);
    crate::text::lemma_no_mark_joined("this card"@, t);
    crate::text::lemma_find_pat_absent(s1, summon_marker(), 0);
    crate::text::lemma_replace_absent(s1, "¤My"@, "This card's"@);
    crate::text::lemma_replace_absent(s1, "¤my"@, "this card's"@);
    crate::text::lemma_replace_absent(s1, "¤Set_my_pos_to_chosen"@, "Move this card to the chosen position"@);
    crate::text::lemma_replace_absent(s1, "¤set_my_pos_to_chosen"@, "move this card to the chosen position"@);
}

/// `¤My`, then a space and a text without `¤`: the command becomes `This card's`.
proof fn lemma_fixed_command_18(t: Seq<char>)
    requires
        !t.contains('\u{a4}'),
    ensures
        replace_fixed_commands("¤My"@ + seq![' '] + t) == "This card's"@ + seq![' '] + t,
        rules_text("¤My"@ + seq![' '] + t) == Some("This card's"@ + seq![' '] + t),
{
    reveal_strlit("Attach this card to the chosen card");
    reveal_strlit("Boost");
    reveal_strlit("Choose a friendly card");
    reveal_strlit("Choose a friendly position");
    reveal_strlit("Instant");
    reveal_strlit("Move this card to the chosen position");
    reveal_strlit("Passing");
    reveal_strlit("Quick");
    reveal_strlit("This card");
    reveal_strlit("This card has");
    reveal_strlit("This card is");
    reveal_strlit("This card's");
    reveal_strlit("attach this card to the chosen card");
    reveal_strlit("boost");
    reveal_strlit("choose a friendly card");
    reveal_strlit("choose a friendly position");
    reveal_strlit("move this card to the chosen position");
    reveal_strlit("this card");
    reveal_strlit("this card has");
    reveal_strlit("this card is");
    reveal_strlit("this card's");
    reveal_strlit("¤Attach_me_to_chosen");
    reveal_strlit("¤Boost");
    reveal_strlit("¤Choose_your_c");
    reveal_strlit("¤Choose_your_pos");
    reveal_strlit("¤I");
    reveal_strlit("¤I_am");
    reveal_strlit("¤I_have");
    reveal_strlit("¤Me");
    reveal_strlit("¤My");
    reveal_strlit("¤Set_my_pos_to_chosen");
    reveal_strlit("¤attach_me_to_chosen");
    reveal_strlit("¤choose_your_c");
    reveal_strlit("¤choose_your_pos");
    reveal_strlit("¤i");
    reveal_strlit("¤i_am");
    reveal_strlit("¤i_have");
    reveal_strlit("¤instant");
    reveal_strlit("¤me");
    reveal_strlit("¤my");
    reveal_strlit("¤passing");
    reveal_strlit("¤quick");
    reveal_strlit("¤set_my_pos_to_chosen");
    let s0 = "¤My"@ + seq![' '] + t;
    crate::text::lemma_mark_only_at_start("¤My"@, t);
    crate::text::lemma_replace_mismatch_at_start(s0, "¤quick"@, "Quick"@, 1);
    crate::text::lemma_replace_mismatch_at_start(s0, "¤instant"@, "Instant"@, 1);
    crate::text::lemma_replace_mismatch_at_start(s0, "¤passing"@, "Passing"@, 1);
    crate::text::lemma_replace_mismatch_at_start(s0, "¤Choose_your_c"@, "Choose a friendly card"@, 1);
    crate::text::lemma_replace_mismatch_at_start(s0, "¤choose_your_c"@, "choose a friendly card"@, 1);
    crate::text::lemma_replace_mismatch_at_start(s0, "¤Boost"@, "Boost"@, 1);
    crate::text::lemma_replace_mismatch_at_start(s0, "¤Boost"@, "boost"@, 1);
    crate::text::lemma_replace_mismatch_at_start(s0, "¤I_have"@, "This card has"@, 1);
    crate::text::lemma_replace_mismatch_at_start(s0, "¤i_have"@, "this card has"@, 1);
    crate::text::lemma_replace_mismatch_at_start(s0, "¤Choose_your_pos"@, "Choose a friendly position"@, 1);
    crate::text::lemma_replace_mismatch_at_start(s0, "¤choose_your_pos"@, "choose a friendly position"@, 1);
    crate::text::lemma_replace_mismatch_at_start(s0, "¤Attach_me_to_chosen"@, "Attach this card to the chosen card"@, 1);
    crate::text::lemma_replace_mismatch_at_start(s0, "¤attach_me_to_chosen"@, "attach this card to the chosen card"@, 1);
    crate::text::lemma_replace_mismatch_at_start(s0, "¤Me"@, "This card"@, 2);
    crate::text::lemma_replace_mismatch_at_start(s0, "¤me"@, "this card"@, 1);
    crate::text::lemma_replace_mismatch_at_start(s0, "¤I_am"@, "This card is"@, 1);
    crate::text::lemma_replace_mismatch_at_start(s0, "¤i_am"@, "this card is"@, 1);
    crate::text::lemma_replace_mismatch_at_start(s0, "¤I"@, "This card"@, 1);
    crate::text::lemma_replace_mismatch_at_start(s0, "¤i"@, "this card"@, 1);
    assert(s0.subrange(0, "¤My"@.len() as int) =~= "¤My"@);
    crate::text::lemma_replace_at_start(s0, "¤My"@, "This card's"@);
    let s1 = "This card's"@ + seq![' '] + t;
    assert(s0.subrange("¤My"@.len() as int, s0.len() as int) =~= seq![' '] + t);
    assert("This card's"@ + (seq![' '] + t) =~= s1);
    crate::text::lemma_no_mark_joined("This card's"@, t);
    crate::text::lemma_find_pat_absent(s1, summon_marker(), 0);
    crate::text::lemma_replace_absent(s1, "¤my"@, "this card's"@);
    crate::text::lemma_replace_absent(s1, "¤Set_my_pos_to_chosen"@, "Move this card to the chosen position"@);
    crate::text::lemma_replace_absent(s1, "¤set_my_pos_to_chosen"@, "move this card to the chosen position"@);
}

/// `¤my`, then a space and a text without `¤`: the command becomes `this card's`.
proof fn lemma_fixed_command_19(t: Seq<char>)
    requires
        !t.contains('\u{a4}'),
    ensures
        replace_fixed_commands("¤my"@ + seq![' '] + t) == "this card's"@ + seq![' '] + t,
        rules_text("¤my"@ + seq![' '] + t) == Some("this card's"@ + seq![' '] + t),
{
    reveal_strlit("Attach this card to the chosen card");
    reveal_strlit("Boost");
    reveal_strlit("Choose a friendly card");
    reveal_strlit("Choose a friendly position");
    reveal_strlit("Instant");
    reveal_strlit("Move this card to the chosen position");
    reveal_strlit("Passing");
    reveal_strlit("Quick");
    reveal_strlit("This card");
    reveal_strlit("This card has");
    reveal_strlit("This card is");
    reveal_strlit("This card's");
    reveal_strlit("attach this card to the chosen card");
    reveal_strlit("boost");
    reveal_strlit("choose a friendly card");
    reveal_strlit("choose a friendly position");
    reveal_strlit("move this card to the chosen position");
    reveal_strlit("this card");
    reveal_strlit("this card has");
    reveal_strlit("this card is");
    reveal_strlit("this card's");
    reveal_strlit("¤Attach_me_to_chosen");
    reveal_strlit("¤Boost");
    reveal_strlit("¤Choose_your_c");
    reveal_strlit("¤Choose_your_pos");
    reveal_strlit("¤I");
    reveal_strlit("¤I_am");
    reveal_strlit("¤I_have");
    reveal_strlit("¤Me");
    reveal_strlit("¤My");
    reveal_strlit("¤Set_my_pos_to_chosen");
    reveal_strlit("¤attach_me_to_chosen");
    reveal_strlit("¤choose_your_c");
    reveal_strlit("¤choose_your_pos");
    reveal_strlit("¤i");
    reveal_strlit("¤i_am");
    reveal_strlit("¤i_have");
    reveal_strlit("¤instant");
    reveal_strlit("¤me");
    reveal_strlit("¤my");
    reveal_strlit("¤passing");
    reveal_strlit("¤quick");
    reveal_strlit("¤set_my_pos_to_chosen");
    let s0 = "¤my"@ + seq![' '] + t;
    crate::text::lemma_mark_only_at_start("¤my"@, t);
    crate::text::lemma_replace_mismatch_at_start(s0, "¤quick"@, "Quick"@, 1);
    crate::text::lemma_replace_mismatch_at_start(s0, "¤instant"@, "Instant"@, 1);
    crate::text::lemma_replace_mismatch_at_start(s0, "¤passing"@, "Passing"@, 1);
    crate::text::lemma_replace_mismatch_at_start(s0, "¤Choose_your_c"@, "Choose a friendly card"@, 1);
    crate::text::lemma_replace_mismatch_at_start(s0, "¤choose_your_c"@, "choose a friendly card"@, 1);
    crate::text::lemma_replace_mismatch_at_start(s0, "¤Boost"@, "Boost"@, 1);
    crate::text::lemma_replace_mismatch_at_start(s0, "¤Boost"@, "boost"@, 1);
    crate::text::lemma_replace_mismatch_at_start(s0, "¤I_have"@, "This card has"@, 1);
    crate::text::lemma_replace_mismatch_at_start(s0, "¤i_have"@, "this card has"@, 1);
    crate::text::lemma_replace_mismatch_at_start(s0, "¤Choose_your_pos"@, "Choose a friendly position"@, 1);
    crate::text::lemma_replace_mismatch_at_start(s0, "¤choose_your_pos"@, "choose a friendly position"@, 1);
    crate::text::lemma_replace_mismatch_at_start(s0, "¤Attach_me_to_chosen"@, "Attach this card to the chosen card"@, 1);
    crate::text::lemma_replace_mismatch_at_start(s0, "¤attach_me_to_chosen"@, "attach this card to the chosen card"@, 1);
    crate::text::lemma_replace_mismatch_at_start(s0, "¤Me"@, "This card"@, 1);
    crate::text::lemma_replace_mismatch_at_start(s0, "¤me"@, "this card"@, 2);
    crate::text::lemma_replace_mismatch_at_start(s0, "¤I_am"@, "This card is"@, 1);
    crate::text::lemma_replace_mismatch_at_start(s0, "¤i_am"@, "this card is"@, 1);
    crate::text::lemma_replace_mismatch_at_start(s0, "¤I"@, "This card"@, 1);
    crate::text::lemma_replace_mismatch_at_start(s0, "¤i"@, "this card"@, 1);
    crate::text::lemma_replace_mismatch_at_start(s0, "¤My"@, "This card's"@, 1);
    assert(s0.subrange(0, "¤my"@.len() as int) =~= "¤my"@);
    crate::text::lemma_replace_at_start(s0, "¤my"@, "this card's"@);
    let s1 = "this card's"@ + seq![' '] + t;
    assert(s0.subrange("¤my"@.len() as int, s0.len() as int) =~= seq![' '] + t);
    assert("this card's"@ + (seq![' '] + t) =~= s1);
    crate::text::lemma_no_mark_joined("this card's"@, t);
    crate::text::lemma_find_pat_absent(s1, summon_marker(), 0);
    crate::text::lemma_replace_absent(s1, "¤Set_my_pos_to_chosen"@, "Move this card to the chosen position"@);
    crate::text::lemma_replace_absent(s1, "¤set_my_pos_to_chosen"@, "move this card to the chosen position"@);
}

/// `¤Set_my_pos_to_chosen`, then a space and a text without `¤`: the command becomes `Move this card to the chosen position`.
proof fn lemma_fixed_command_20(t: Seq<char>)
    requires
        !t.contains('\u{a4}'),
    ensures
        replace_fixed_commands("¤Set_my_pos_to_chosen"@ + seq![' '] + t) == "Move this card to the chosen position"@ + seq![' '] + t,
        rules_text("¤Set_my_pos_to_chosen"@ + seq![' '] + t) == Some("Move this card to the chosen position"@ + seq![' '] + t),
{
    reveal_strlit("Attach this card to the chosen card");
    reveal_strlit("Boost");
    reveal_strlit("Choose a friendly card");
    reveal_strlit("Choose a friendly position");
    reveal_strlit("Instant");
    reveal_strlit("Move this card to the chosen position");
    reveal_strlit("Passing");
    reveal_strlit("Quick");
    reveal_strlit("This card");
    reveal_strlit("This card has");
    reveal_strlit("This card is");
    reveal_strlit("This card's");
    reveal_strlit("attach this card to the chosen card");
    reveal_strlit("boost");
    reveal_strlit("choose a friendly card");
    reveal_strlit("choose a friendly position");
    reveal_strlit("move this card to the chosen position");
    reveal_strlit("this card");
    reveal_strlit("this card has");
    reveal_strlit("this card is");
    reveal_strlit("this card's");
    reveal_strlit("¤Attach_me_to_chosen");
    reveal_strlit("¤Boost");
    reveal_strlit("¤Choose_your_c");
    reveal_strlit("¤Choose_your_pos");
    reveal_strlit("¤I");
    reveal_strlit("¤I_am");
    reveal_strlit("¤I_have");
    reveal_strlit("¤Me");
    reveal_strlit("¤My");
    reveal_strlit("¤Set_my_pos_to_chosen");
    reveal_strlit("¤attach_me_to_chosen");
    reveal_strlit("¤choose_your_c");
    reveal_strlit("¤choose_your_pos");
    reveal_strlit("¤i");
    reveal_strlit("¤i_am");
    reveal_strlit("¤i_have");
    reveal_strlit("¤instant");
    reveal_strlit("¤me");
    reveal_strlit("¤my");
    reveal_strlit("¤passing");
    reveal_strlit("¤quick");
    reveal_strlit("¤set_my_pos_to_chosen");
    let s0 = "¤Set_my_pos_to_chosen"@ + seq![' '] + t;
    crate::text::lemma_mark_only_at_start("¤Set_my_pos_to_chosen"@, t);
    crate::text::lemma_replace_mismatch_at_start(s0, "¤quick"@, "Quick"@, 1);
    crate::text::lemma_replace_mismatch_at_start(s0, "¤instant"@, "Instant"@, 1);
    crate::text::lemma_replace_mismatch_at_start(s0, "¤passing"@, "Passing"@, 1);
    crate::text::lemma_replace_mismatch_at_start(s0, "¤Choose_your_c"@, "Choose a friendly card"@, 1);
    crate::text::lemma_replace_mismatch_at_start(s0, "¤choose_your_c"@, "choose a friendly card"@, 1);
    crate::text::lemma_replace_mismatch_at_start(s0, "¤Boost"@, "Boost"@, 1);
    crate::text::lemma_replace_mismatch_at_start(s0, "¤Boost"@, "boost"@, 1);
    crate::text::lemma_replace_mismatch_at_start(s0, "¤I_have"@, "This card has"@, 1);
    crate::text::lemma_replace_mismatch_at_start(s0, "¤i_have"@, "this card has"@, 1);
    crate::text::lemma_replace_mismatch_at_start(s0, "¤Choose_your_pos"@, "Choose a friendly position"@, 1);
    crate::text::lemma_replace_mismatch_at_start(s0, "¤choose_your_pos"@, "choose a friendly position"@, 1);
    crate::text::lemma_replace_mismatch_at_start(s0, "¤Attach_me_to_chosen"@, "Attach this card to the chosen card"@, 1);
    crate::text::lemma_replace_mismatch_at_start(s0, "¤attach_me_to_chosen"@, "attach this card to the chosen card"@, 1);
    crate::text::lemma_replace_mismatch_at_start(s0, "¤Me"@, "This card"@, 1);
    crate::text::lemma_replace_mismatch_at_start(s0, "¤me"@, "this card"@, 1);
    crate::text::lemma_replace_mismatch_at_start(s0, "¤I_am"@, "This card is"@, 1);
    crate::text::lemma_replace_mismatch_at_start(s0, "¤i_am"@, "this card is"@, 1);
    crate::text::lemma_replace_mismatch_at_start(s0, "¤I"@, "This card"@, 1);
    crate::text::lemma_replace_mismatch_at_start(s0, "¤i"@, "this card"@, 1);
    crate::text::lemma_replace_mismatch_at_start(s0, "¤My"@, "This card's"@, 1);
    crate::text::lemma_replace_mismatch_at_start(s0, "¤my"@, "this card's"@, 1);
    assert(s0.subrange(0, "¤Set_my_pos_to_chosen"@.len() as int) =~= "¤Set_my_pos_to_chosen"@);
    crate::text::lemma_replace_at_start(s0, "¤Set_my_pos_to_chosen"@, "Move this card to the chosen position"@);
    let s1 = "Move this card to the chosen position"@ + seq![' '] + t;
    assert(s0.subrange("¤Set_my_pos_to_chosen"@.len() as int, s0.len() as int) =~= seq![' '] + t);
    assert("Move this card to the chosen position"@ + (seq![' '] + t) =~= s1);
    crate::text::lemma_no_mark_joined("Move this card to the chosen position"@, t);
    crate::text::lemma_find_pat_absent(s1, summon_marker(), 0);
    crate::text::lemma_replace_absent(s1, "¤set_my_pos_to_chosen"@, "move this card to the chosen position"@);
}

/// `¤set_my_pos_to_chosen`, then a space and a text without `¤`: the command becomes `move this card to the chosen position`.
proof fn lemma_fixed_command_21(t: Seq<char>)
    requires
        !t.contains('\u{a4}'),
    ensures
        replace_fixed_commands("¤set_my_pos_to_chosen"@ + seq![' '] + t) == "move this card to the chosen position"@ + seq![' '] + t,
        rules_text("¤set_my_pos_to_chosen"@ + seq![' '] + t) == Some("move this card to the chosen position"@ + seq![' '] + t),
{
    reveal_strlit("Attach this card to the chosen card");
    reveal_strlit("Boost");
    reveal_strlit("Choose a friendly card");
    reveal_strlit("Choose a friendly position");
    reveal_strlit("Instant");
    reveal_strlit("Move this card to the chosen position");
    reveal_strlit("Passing");
    reveal_strlit("Quick");
    reveal_strlit("This card");
    reveal_strlit("This card has");
    reveal_strlit("This card is");
    reveal_strlit("This card's");
    reveal_strlit("attach this card to the chosen card");
    reveal_strlit("boost");
    reveal_strlit("choose a friendly card");
    reveal_strlit("choose a friendly position");
    reveal_strlit("move this card to the chosen position");
    reveal_strlit("this card");
    reveal_strlit("this card has");
    reveal_strlit("this card is");
    reveal_strlit("this card's");
    reveal_strlit("¤Attach_me_to_chosen");
    reveal_strlit("¤Boost");
    reveal_strlit("¤Choose_your_c");
    reveal_strlit("¤Choose_your_pos");
    reveal_strlit("¤I");
    reveal_strlit("¤I_am");
    reveal_strlit("¤I_have");
    reveal_strlit("¤Me");
    reveal_strlit("¤My");
    reveal_strlit("¤Set_my_pos_to_chosen");
    reveal_strlit("¤attach_me_to_chosen");
    reveal_strlit("¤choose_your_c");
    reveal_strlit("¤choose_your_pos");
    reveal_strlit("¤i");
    reveal_strlit("¤i_am");
    reveal_strlit("¤i_have");
    reveal_strlit("¤instant");
    reveal_strlit("¤me");
    reveal_strlit("¤my");
    reveal_strlit("¤passing");
    reveal_strlit("¤quick");
    reveal_strlit("¤set_my_pos_to_chosen");
    let s0 = "¤set_my_pos_to_chosen"@ + seq![' '] + t;
    crate::text::lemma_mark_only_at_start("¤set_my_pos_to_chosen"@, t);
    crate::text::lemma_replace_mismatch_at_start(s0, "¤quick"@, "Quick"@, 1);
    crate::text::lemma_replace_mismatch_at_start(s0, "¤instant"@, "Instant"@, 1);
    crate::text::lemma_replace_mismatch_at_start(s0, "¤passing"@, "Passing"@, 1);
    crate::text::lemma_replace_mismatch_at_start(s0, "¤Choose_your_c"@, "Choose a friendly card"@, 1);
    crate::text::lemma_replace_mismatch_at_start(s0, "¤choose_your_c"@, "choose a friendly card"@, 1);
    crate::text::lemma_replace_mismatch_at_start(s0, "¤Boost"@, "Boost"@, 1);
    crate::text::lemma_replace_mismatch_at_start(s0, "¤Boost"@, "boost"@, 1);
    crate::text::lemma_replace_mismatch_at_start(s0, "¤I_have"@, "This card has"@, 1);
    crate::text::lemma_replace_mismatch_at_start(s0, "¤i_have"@, "this card has"@, 1);
    crate::text::lemma_replace_mismatch_at_start(s0, "¤Choose_your_pos"@, "Choose a friendly position"@, 1);
    crate::text::lemma_replace_mismatch_at_start(s0, "¤choose_your_pos"@, "choose a friendly position"@, 1);
    crate::text::lemma_replace_mismatch_at_start(s0, "¤Attach_me_to_chosen"@, "Attach this card to the chosen card"@, 1);
    crate::text::lemma_replace_mismatch_at_start(s0, "¤attach_me_to_chosen"@, "attach this card to the chosen card"@, 1);
    crate::text::lemma_replace_mismatch_at_start(s0, "¤Me"@, "This card"@, 1);
    crate::text::lemma_replace_mismatch_at_start(s0, "¤me"@, "this card"@, 1);
    crate::text::lemma_replace_mismatch_at_start(s0, "¤I_am"@, "This card is"@, 1);
    crate::text::lemma_replace_mismatch_at_start(s0, "¤i_am"@, "this card is"@, 1);
    crate::text::lemma_replace_mismatch_at_start(s0, "¤I"@, "This card"@, 1);
    crate::text::lemma_replace_mismatch_at_start(s0, "¤i"@, "this card"@, 1);
    crate::text::lemma_replace_mismatch_at_start(s0, "¤My"@, "This card's"@, 1);
    crate::text::lemma_replace_mismatch_at_start(s0, "¤my"@, "this card's"@, 1);
    crate::text::lemma_replace_mismatch_at_start(s0, "¤Set_my_pos_to_chosen"@, "Move this card to the chosen position"@, 1);
    assert(s0.subrange(0, "¤set_my_pos_to_chosen"@.len() as int) =~= "¤set_my_pos_to_chosen"@);
    crate::text::lemma_replace_at_start(s0, "¤set_my_pos_to_chosen"@, "move this card to the chosen position"@);
    let s1 = "move this card to the chosen position"@ + seq![' '] + t;
    assert(s0.subrange("¤set_my_pos_to_chosen"@.len() as int, s0.len() as int) =~= seq![' '] + t);
    assert("move this card to the chosen position"@ + (seq![' '] + t) =~= s1);
    crate::text::lemma_no_mark_joined("move this card to the chosen position"@, t);
    crate::text::lemma_find_pat_absent(s1, summon_marker(), 0);
}

/// Each fixed command of rules text becomes its own word: a command, then a
/// space and any text without `¤`, gives the command's word, then the same
/// space and text.
pub proof fn lemma_fixed_commands_become_words(t: Seq<char>)
    requires
        !t.contains('\u{a4}'),
    ensures
        rules_text("¤quick"@ + seq![' '] + t) == Some("Quick"@ + seq![' '] + t),
        rules_text("¤instant"@ + seq![' '] + t) == Some("Instant"@ + seq![' '] + t),
        rules_text("¤passing"@ + seq![' '] + t) == Some("Passing"@ + seq![' '] + t),
        rules_text("¤Choose_your_c"@ + seq![' '] + t) == Some("Choose a friendly card"@ + seq![' '] + t),
        rules_text("¤choose_your_c"@ + seq![' '] + t) == Some("choose a friendly card"@ + seq![' '] + t),
        rules_text("¤Boost"@ + seq![' '] + t) == Some("Boost"@ + seq![' '] + t),
        rules_text("¤I_have"@ + seq![' '] + t) == Some("This card has"@ + seq![' '] + t),
        rules_text("¤i_have"@ + seq![' '] + t) == Some("this card has"@ + seq![' '] + t),
        rules_text("¤Choose_your_pos"@ + seq![' '] + t) == Some("Choose a friendly position"@ + seq![' '] + t),
        rules_text("¤choose_your_pos"@ + seq![' '] + t) == Some("choose a friendly position"@ + seq![' '] + t),
        rules_text("¤Attach_me_to_chosen"@ + seq![' '] + t) == Some("Attach this card to the chosen card"@ + seq![' '] + t),
        rules_text("¤attach_me_to_chosen"@ + seq![' '] + t) == Some("attach this card to the chosen card"@ + seq![' '] + t),
        rules_text("¤Me"@ + seq![' '] + t) == Some("This card"@ + seq![' '] + t),
        rules_text("¤me"@ + seq![' '] + t) == Some("this card"@ + seq![' '] + t),
        rules_text("¤I_am"@ + seq![' '] + t) == Some("This card is"@ + seq![' '] + t),
        rules_text("¤i_am"@ + seq![' '] + t) == Some("this card is"@ + seq![' '] + t),
        rules_text("¤I"@ + seq![' '] + t) == Some("This card"@ + seq![' '] + t),
        rules_text("¤i"@ + seq![' '] + t) == Some("this card"@ + seq![' '] + t),
        rules_text("¤My"@ + seq![' '] + t) == Some("This card's"@ + seq![' '] + t),
        rules_text("¤my"@ + seq![' '] + t) == Some("this card's"@ + seq![' '] + t),
        rules_text("¤Set_my_pos_to_chosen"@ + seq![' '] + t) == Some("Move this card to the chosen position"@ + seq![' '] + t),
        rules_text("¤set_my_pos_to_chosen"@ + seq![' '] + t) == Some("move this card to the chosen position"@ + seq![' '] + t),
{
    lemma_fixed_command_0(t);
    lemma_fixed_command_1(t);
    lemma_fixed_command_2(t);
    lemma_fixed_command_3(t);
    lemma_fixed_command_4(t);
    lemma_fixed_command_5(t);
    lemma_fixed_command_6(t);
    lemma_fixed_command_7(t);
    lemma_fixed_command_8(t);
    lemma_fixed_command_9(t);
    lemma_fixed_command_10(t);
    lemma_fixed_command_11(t);
    lemma_fixed_command_12(t);
    lemma_fixed_command_13(t);
    lemma_fixed_command_14(t);
    lemma_fixed_command_15(t);
    lemma_fixed_command_16(t);
    lemma_fixed_command_17(t);
    lemma_fixed_command_18(t);
    lemma_fixed_command_19(t);
    lemma_fixed_command_20(t);
    lemma_fixed_command_21(t);
}

/// A summon command alone, whose parameter holds no `)` and no `¤`, closed
/// by `))`, becomes the bold summoning of that parameter.
pub proof fn lemma_summon_becomes_bold(p: Seq<char>)
    requires
        !p.contains(')'),
        !p.contains('\u{a4}'),
    ensures
        rules_text("¤summon("@ + p + seq![')', ')']) == Some("[b]Summon "@ + p + "[/b]"@),
{
    reveal_strlit("[/b]");
    reveal_strlit("[b]Summon ");
    reveal_strlit("¤Attach_me_to_chosen");
    reveal_strlit("¤Boost");
    reveal_strlit("¤Choose_your_c");
    reveal_strlit("¤Choose_your_pos");
    reveal_strlit("¤I");
    reveal_strlit("¤I_am");
    reveal_strlit("¤I_have");
    reveal_strlit("¤Me");
    reveal_strlit("¤My");
    reveal_strlit("¤Set_my_pos_to_chosen");
    reveal_strlit("¤attach_me_to_chosen");
    reveal_strlit("¤choose_your_c");
    reveal_strlit("¤choose_your_pos");
    reveal_strlit("¤i");
    reveal_strlit("¤i_am");
    reveal_strlit("¤i_have");
    reveal_strlit("¤instant");
    reveal_strlit("¤me");
    reveal_strlit("¤my");
    reveal_strlit("¤passing");
    reveal_strlit("¤quick");
    reveal_strlit("¤set_my_pos_to_chosen");
    reveal_strlit("¤summon(");
    let s = "¤summon("@ + p + seq![')', ')'];
    assert("¤summon("@ =~= summon_marker());
    assert forall|j: int| 1 <= j < s.len() implies s[j] != '\u{a4}' by {
        if j >= 8 && j < 8 + p.len() {
            assert(s[j] == p[j - 8]);
        }
    }
    crate::text::lemma_replace_mismatch_at_start(s, "¤quick"@, "Quick"@, 1);
    crate::text::lemma_replace_mismatch_at_start(s, "¤instant"@, "Instant"@, 1);
    crate::text::lemma_replace_mismatch_at_start(s, "¤passing"@, "Passing"@, 1);
    crate::text::lemma_replace_mismatch_at_start(s, "¤Choose_your_c"@, "Choose a friendly card"@, 1);
    crate::text::lemma_replace_mismatch_at_start(s, "¤choose_your_c"@, "choose a friendly card"@, 1);
    crate::text::lemma_replace_mismatch_at_start(s, "¤Boost"@, "Boost"@, 1);
    crate::text::lemma_replace_mismatch_at_start(s, "¤Boost"@, "boost"@, 1);
    crate::text::lemma_replace_mismatch_at_start(s, "¤I_have"@, "This card has"@, 1);
    crate::text::lemma_replace_mismatch_at_start(s, "¤i_have"@, "this card has"@, 1);
    crate::text::lemma_replace_mismatch_at_start(s, "¤Choose_your_pos"@, "Choose a friendly position"@, 1);
    crate::text::lemma_replace_mismatch_at_start(s, "¤choose_your_pos"@, "choose a friendly position"@, 1);
    crate::text::lemma_replace_mismatch_at_start(s, "¤Attach_me_to_chosen"@, "Attach this card to the chosen card"@, 1);
    crate::text::lemma_replace_mismatch_at_start(s, "¤attach_me_to_chosen"@, "attach this card to the chosen card"@, 1);
    crate::text::lemma_replace_mismatch_at_start(s, "¤Me"@, "This card"@, 1);
    crate::text::lemma_replace_mismatch_at_start(s, "¤me"@, "this card"@, 1);
    crate::text::lemma_replace_mismatch_at_start(s, "¤I_am"@, "This card is"@, 1);
    crate::text::lemma_replace_mismatch_at_start(s, "¤i_am"@, "this card is"@, 1);
    crate::text::lemma_replace_mismatch_at_start(s, "¤I"@, "This card"@, 1);
    crate::text::lemma_replace_mismatch_at_start(s, "¤i"@, "this card"@, 1);
    crate::text::lemma_replace_mismatch_at_start(s, "¤My"@, "This card's"@, 1);
    crate::text::lemma_replace_mismatch_at_start(s, "¤my"@, "this card's"@, 1);
    crate::text::lemma_replace_mismatch_at_start(s, "¤Set_my_pos_to_chosen"@, "Move this card to the chosen position"@, 1);
    crate::text::lemma_replace_mismatch_at_start(s, "¤set_my_pos_to_chosen"@, "move this card to the chosen position"@, 2);
    assert(replace_fixed_commands(s) == s);
    let t = "[b]Summon "@ + p + "[/b]"@;
    assert(s.subrange(0, 8) =~= summon_marker());
    assert(find_pat_from(s, summon_marker(), 0) == Some(0int));
    let end: int = (8 + p.len()) as int;
    crate::text::lemma_find_char_from(s, ')', 8);
    assert(s[end] == ')');
    assert forall|j: int| 8 <= j < end implies s[j] != ')' by {
        assert(s[j] == p[j - 8]);
    }
    assert(find_char_from(s, ')', 8) == Some(end));
    assert(s.subrange(8, end) =~= p);
    assert(s[end + 1] == ')');
    assert(s.subrange(0, 0) + "[b]Summon "@ + s.subrange(8, end) + "[/b]"@ + s.subrange(end + 2, s.len() as int) =~= t);
    assert(summon_step(s, 0) == Some(t));
    assert(!t.contains('\u{a4}')) by {
        if t.contains('\u{a4}') {
            let j = choose|j: int| 0 <= j < t.len() && t[j] == '\u{a4}';
            if j >= 10 && j < 10 + p.len() {
                assert(p[j - 10] == '\u{a4}');
            }
        }
    }
    crate::text::lemma_find_pat_absent(t, summon_marker(), 0);
    assert(expand_summons_steps(t, 0) == Some(t));
    assert(s =~= seq!['\u{a4}'] + (s.skip(1)));
    assert(!s.skip(1).contains('\u{a4}')) by {
        if s.skip(1).contains('\u{a4}') {
            let j = choose|j: int| 0 <= j < s.skip(1).len() && s.skip(1)[j] == '\u{a4}';
            assert(s[j + 1] == '\u{a4}');
        }
    }
    lemma_count_char_absent(s.skip(1), '\u{a4}');
    lemma_count_char_add(seq!['\u{a4}'], s.skip(1), '\u{a4}');
    lemma_count_char_single('\u{a4}', '\u{a4}');
    assert(count_char(s, '\u{a4}') == 1);
    assert(expand_summons_steps(s, 1) == expand_summons_steps(t, 0));
}

} // verus!
