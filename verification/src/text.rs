use vstd::prelude::*;

verus! {

// ---------------------------------------------------------------------------
// Characters
// ---------------------------------------------------------------------------

/// Whether `c` has the Unicode `White_Space` property, as `char::is_whitespace`
/// decides it.
pub uninterp spec fn white_space(c: char) -> bool;

/// Trusted: wraps `char::is_whitespace`. The standard library documents that
/// it returns true exactly for characters with the Unicode `White_Space`
/// property. The contract names that result, as a function of `c` alone, and
/// states its ASCII part from the Unicode data: among ASCII characters the
/// property holds for the space and for U+0009 to U+000D. Which other
/// characters have it is left unsaid.
#[verifier::external_body]
pub(crate) fn is_whitespace(c: char) -> (b: bool)
    ensures
        b == white_space(c),
        (c as u32) < 0x80 ==> (b <==> (c == ' ' || ('\t' <= c && c <= '\r'))),
{
    c.is_whitespace()
}

/// The characters that `char::to_uppercase` yields for `c`: its Unicode
/// uppercase mapping, one or more characters.
pub uninterp spec fn upper_case(c: char) -> Seq<char>;

/// The Unicode uppercase mapping of `c`.
///
/// Trusted: wraps `char::to_uppercase`, collecting the characters it yields.
/// The documentation promises one or more characters, and the same character
/// for a character without an uppercase mapping; `¤` (U+00A4, a currency
/// sign) has none, and no uppercase mapping in the Unicode data that the
/// documentation names yields it. Among ASCII characters, the data maps `a`
/// to `z` to `A` to `Z` and leaves every other one as it is. Which characters
/// the mappings of other characters yield is left unsaid.
#[verifier::external_body]
pub(crate) fn to_uppercase(c: char) -> (r: Vec<char>)
    ensures
        r@ == upper_case(c),
        r@.len() >= 1,
        'a' <= c && c <= 'z' ==> r@ == seq![((c as u32) - 32) as char],
        (c as u32) < 0x80 && !('a' <= c && c <= 'z') ==> r@ == seq![c],
        c == '\u{a4}' ==> r@ == seq!['\u{a4}'],
        c != '\u{a4}' ==> !r@.contains('\u{a4}'),
{
    c.to_uppercase().collect()
}

/// How often `c` occurs in `s`.
pub open spec fn count_char(s: Seq<char>, c: char) -> nat {
    s.filter(|x: char| x == c).len()
}

/// Counting distributes over concatenation.
pub proof fn lemma_count_char_add(a: Seq<char>, b: Seq<char>, c: char)
    ensures
        count_char(a + b, c) == count_char(a, c) + count_char(b, c),
{
    Seq::filter_distributes_over_add(a, b, |x: char| x == c);
}

/// A character that does not occur is counted zero times.
pub proof fn lemma_count_char_absent(s: Seq<char>, c: char)
    requires
        !s.contains(c),
    ensures
        count_char(s, c) == 0,
    decreases s.len(),
{
    reveal(Seq::filter);
    if s.len() > 0 {
        assert(!s.drop_last().contains(c)) by {
            if s.drop_last().contains(c) {
                let j = choose|j: int| 0 <= j < s.drop_last().len() && s.drop_last()[j] == c;
                assert(s[j] == c);
            }
        }
        lemma_count_char_absent(s.drop_last(), c);
        assert(s[s.len() - 1] != c);
    }
}

/// The count of a one-character sequence.
pub proof fn lemma_count_char_single(x: char, c: char)
    ensures
        count_char(seq![x], c) == if x == c { 1nat } else { 0nat },
{
    reveal_with_fuel(Seq::filter, 2);
    assert(seq![x].drop_last() =~= Seq::<char>::empty());
}

/// Number of bytes that the UTF-8 encoding of `c` takes.
pub open spec fn utf8_len(c: char) -> nat {
    if (c as u32) < 0x80 {
        1
    } else if (c as u32) < 0x800 {
        2
    } else if (c as u32) < 0x10000 {
        3
    } else {
        4
    }
}

/// Executable `utf8_len`.
pub fn char_utf8_len(c: char) -> (n: usize)
    ensures
        n == utf8_len(c),
{
    let u = c as u32;
    if u < 0x80 {
        1
    } else if u < 0x800 {
        2
    } else if u < 0x10000 {
        3
    } else {
        4
    }
}

// ---------------------------------------------------------------------------
// Conversions between strings and character vectors
// ---------------------------------------------------------------------------

/// Appends one character to a `String`.
///
/// Trusted: wraps `String::push`, which the standard library documents as
/// appending the given `char` to the end of the string.
#[verifier::external_body]
pub(crate) fn push_char(s: &mut String, c: char)
    ensures
        final(s)@ == old(s)@.push(c),
{
    s.push(c);
}

/// The characters of a string slice, in order.
pub fn to_chars(s: &str) -> (v: Vec<char>)
    ensures
        v@ == s@,
{
    let mut v: Vec<char> = Vec::new();
    for c in it: s.chars()
        invariant
            it.seq() == s@,
            v@ == s@.take(it.index()),
    {
        v.push(c);
    }
    v
}

/// Builds a `String` holding exactly the given characters.
pub fn from_chars(v: &[char]) -> (s: String)
    ensures
        s@ == v@,
{
    let mut s = String::new();
    let mut i: usize = 0;
    while i < v.len()
        invariant
            i <= v.len(),
            s@ == v@.take(i as int),
        decreases v.len() - i,
    {
        push_char(&mut s, v[i]);
        assert(v@.take(i as int).push(v@[i as int]) =~= v@.take(i + 1));
        i += 1;
    }
    assert(v@.take(v.len() as int) =~= v@);
    s
}

/// The views of a sequence of character vectors.
pub open spec fn seqs(v: Seq<Vec<char>>) -> Seq<Seq<char>> {
    v.map_values(|x: Vec<char>| x@)
}

/// The views of a sequence of strings.
pub open spec fn strs(v: Seq<String>) -> Seq<Seq<char>> {
    v.map_values(|x: String| x@)
}

/// Copies `v[lo..hi]`.
pub fn sub_chars(v: &[char], lo: usize, hi: usize) -> (r: Vec<char>)
    requires
        lo <= hi <= v.len(),
    ensures
        r@ == v@.subrange(lo as int, hi as int),
{
    let mut r: Vec<char> = Vec::new();
    let mut i = lo;
    while i < hi
        invariant
            lo <= i <= hi <= v.len(),
            r@ == v@.subrange(lo as int, i as int),
        decreases hi - i,
    {
        r.push(v[i]);
        assert(v@.subrange(lo as int, i as int).push(v@[i as int]) =~= v@.subrange(
            lo as int,
            i + 1,
        ));
        i += 1;
    }
    r
}

/// Appends all of `w` to `v`.
pub fn append_chars(v: &mut Vec<char>, w: &[char])
    ensures
        final(v)@ == old(v)@ + w@,
{
    let mut i: usize = 0;
    while i < w.len()
        invariant
            i <= w.len(),
            v@ == old(v)@ + w@.take(i as int),
        decreases w.len() - i,
    {
        v.push(w[i]);
        assert(old(v)@ + w@.take(i as int).push(w@[i as int]) =~= old(v)@ + w@.take(i + 1));
        i += 1;
    }
    assert(w@.take(w.len() as int) =~= w@);
}

/// Appends the characters of a string slice to `v`.
pub fn append_str(v: &mut Vec<char>, s: &str)
    ensures
        final(v)@ == old(v)@ + s@,
{
    let w = to_chars(s);
    append_chars(v, w.as_slice());
}

// ---------------------------------------------------------------------------
// Trimming
// ---------------------------------------------------------------------------

/// `s` without its leading white space.
pub open spec fn trim_start(s: Seq<char>) -> Seq<char>
    decreases s.len(),
{
    if s.len() > 0 && white_space(s[0]) {
        trim_start(s.drop_first())
    } else {
        s
    }
}

/// `s` without its trailing white space.
pub open spec fn trim_end(s: Seq<char>) -> Seq<char>
    decreases s.len(),
{
    if s.len() > 0 && white_space(s.last()) {
        trim_end(s.drop_last())
    } else {
        s
    }
}

/// `s` without leading and trailing white space, as `str::trim` gives it.
pub open spec fn trim(s: Seq<char>) -> Seq<char> {
    trim_end(trim_start(s))
}

/// Trimming keeps a contiguous part of the sequence.
pub proof fn lemma_trim_part(s: Seq<char>)
    ensures
        exists|i: int, j: int| 0 <= i <= j <= s.len() && trim(s) == s.subrange(i, j),
{
    lemma_trim_start_part(s);
    let i = choose|i: int| 0 <= i <= s.len() && trim_start(s) == s.subrange(i, s.len() as int);
    let t = trim_start(s);
    lemma_trim_end_part(t);
    let j = choose|j: int| 0 <= j <= t.len() && trim_end(t) == t.subrange(0, j);
    assert(trim(s) =~= s.subrange(i, i + j));
}

/// `trim_start` drops a prefix.
pub proof fn lemma_trim_start_part(s: Seq<char>)
    ensures
        exists|i: int| 0 <= i <= s.len() && trim_start(s) == s.subrange(i, s.len() as int),
    decreases s.len(),
{
    if s.len() > 0 && white_space(s[0]) {
        lemma_trim_start_part(s.drop_first());
        let i = choose|i: int|
            0 <= i <= s.drop_first().len() && trim_start(s.drop_first()) == s.drop_first().subrange(
                i,
                s.drop_first().len() as int,
            );
        assert(trim_start(s) =~= s.subrange(i + 1, s.len() as int));
    } else {
        assert(s =~= s.subrange(0, s.len() as int));
    }
}

/// `trim_end` drops a suffix.
pub proof fn lemma_trim_end_part(s: Seq<char>)
    ensures
        exists|j: int| 0 <= j <= s.len() && trim_end(s) == s.subrange(0, j),
    decreases s.len(),
{
    if s.len() > 0 && white_space(s.last()) {
        lemma_trim_end_part(s.drop_last());
        let j = choose|j: int|
            0 <= j <= s.drop_last().len() && trim_end(s.drop_last()) == s.drop_last().subrange(0, j);
        assert(trim_end(s) =~= s.subrange(0, j));
    } else {
        assert(s =~= s.subrange(0, s.len() as int));
    }
}

/// A character that a sequence lacks is lacked by every part of it.
pub proof fn lemma_part_lacks(s: Seq<char>, i: int, j: int, c: char)
    requires
        0 <= i <= j <= s.len(),
        !s.contains(c),
    ensures
        !s.subrange(i, j).contains(c),
{
    if s.subrange(i, j).contains(c) {
        let k = choose|k: int| 0 <= k < j - i && s.subrange(i, j)[k] == c;
        assert(s[i + k] == c);
    }
}

/// Trimming keeps a character out.
pub proof fn lemma_trim_lacks(s: Seq<char>, c: char)
    requires
        !s.contains(c),
    ensures
        !trim(s).contains(c),
        trim(s).len() <= s.len(),
{
    lemma_trim_part(s);
    let (i, j) = choose|i: int, j: int| 0 <= i <= j <= s.len() && trim(s) == s.subrange(i, j);
    lemma_part_lacks(s, i, j, c);
}

/// Trimming does not lengthen.
pub proof fn lemma_trim_len(s: Seq<char>)
    ensures
        trim(s).len() <= s.len(),
{
    lemma_trim_part(s);
}

/// `v` without leading and trailing white space.
pub fn trim_chars(v: &[char]) -> (r: Vec<char>)
    ensures
        r@ == trim(v@),
{
    let mut i: usize = 0;
    assert(v@.subrange(0, v.len() as int) =~= v@);
    while i < v.len() && is_whitespace(v[i])
        invariant
            i <= v.len(),
            trim_start(v@) == trim_start(v@.subrange(i as int, v.len() as int)),
        decreases v.len() - i,
    {
        assert(v@.subrange(i as int, v.len() as int).drop_first() =~= v@.subrange(
            i + 1,
            v.len() as int,
        ));
        i += 1;
    }
    assert(trim_start(v@) == v@.subrange(i as int, v.len() as int));
    let mut j: usize = v.len();
    while j > i && is_whitespace(v[j - 1])
        invariant
            i <= j <= v.len(),
            trim(v@) == trim_end(v@.subrange(i as int, j as int)),
        decreases j,
    {
        assert(v@.subrange(i as int, j as int).drop_last() =~= v@.subrange(i as int, j - 1));
        j -= 1;
    }
    sub_chars(v, i, j)
}

// ---------------------------------------------------------------------------
// Searching
// ---------------------------------------------------------------------------

/// Index of the first `c` in `s` at or after `from`.
pub open spec fn find_char_from(s: Seq<char>, c: char, from: int) -> Option<int>
    decreases s.len() - from,
{
    if from < 0 || from >= s.len() {
        None
    } else if s[from] == c {
        Some(from)
    } else {
        find_char_from(s, c, from + 1)
    }
}

/// What `find_char_from` gives, stated pointwise.
pub proof fn lemma_find_char_from(s: Seq<char>, c: char, from: int)
    requires
        0 <= from,
    ensures
        match find_char_from(s, c, from) {
            Some(i) => from <= i < s.len() && s[i] == c && forall|k: int|
                from <= k < i ==> s[k] != c,
            None => forall|k: int| from <= k < s.len() ==> s[k] != c,
        },
    decreases s.len() - from,
{
    if from < s.len() && s[from] != c {
        lemma_find_char_from(s, c, from + 1);
    }
}

/// Index of the first `c` in `v` at or after `from`.
pub fn find_char(v: &[char], c: char, from: usize) -> (r: Option<usize>)
    ensures
        r == (match find_char_from(v@, c, from as int) {
            Some(i) => Some(i as usize),
            None => None::<usize>,
        }),
        r matches Some(i) ==> from <= i < v.len() && v@[i as int] == c,
{
    proof {
        lemma_find_char_from(v@, c, from as int);
    }
    let mut i = from;
    while i < v.len()
        invariant
            from <= i,
            find_char_from(v@, c, from as int) == find_char_from(v@, c, i as int),
        decreases v.len() - i,
    {
        if v[i] == c {
            return Some(i);
        }
        i += 1;
    }
    None
}

/// Whether `pat` occurs in `s` at index `i`.
pub open spec fn occurs_at(s: Seq<char>, pat: Seq<char>, i: int) -> bool {
    0 <= i && i + pat.len() <= s.len() && s.subrange(i, i + pat.len()) == pat
}

/// Index of the first occurrence of `pat` in `s` at or after `from`.
pub open spec fn find_pat_from(s: Seq<char>, pat: Seq<char>, from: int) -> Option<int>
    decreases s.len() + 1 - from,
{
    if from < 0 || from + pat.len() > s.len() {
        None
    } else if s.subrange(from, from + pat.len()) == pat {
        Some(from)
    } else {
        find_pat_from(s, pat, from + 1)
    }
}

/// What `find_pat_from` gives, stated pointwise.
pub proof fn lemma_find_pat_from(s: Seq<char>, pat: Seq<char>, from: int)
    requires
        0 <= from,
    ensures
        match find_pat_from(s, pat, from) {
            Some(i) => from <= i && occurs_at(s, pat, i) && forall|k: int|
                from <= k < i ==> !occurs_at(s, pat, k),
            None => forall|k: int| from <= k ==> !occurs_at(s, pat, k),
        },
    decreases s.len() + 1 - from,
{
    if from + pat.len() <= s.len() && s.subrange(from, from + pat.len()) != pat {
        lemma_find_pat_from(s, pat, from + 1);
    }
}

/// Whether `pat` occurs in `v` at `i`.
pub fn matches_at(v: &[char], pat: &[char], i: usize) -> (b: bool)
    ensures
        b == occurs_at(v@, pat@, i as int),
{
    if i > v.len() || pat.len() > v.len() - i {
        return false;
    }
    let mut k: usize = 0;
    while k < pat.len()
        invariant
            i + pat.len() <= v.len(),
            k <= pat.len(),
            forall|m: int| 0 <= m < k ==> v@[i + m] == pat@[m],
        decreases pat.len() - k,
    {
        if v[i + k] != pat[k] {
            assert(v@.subrange(i as int, i + pat.len())[k as int] != pat@[k as int]);
            return false;
        }
        k += 1;
    }
    assert(v@.subrange(i as int, i + pat.len()) =~= pat@);
    true
}

/// Index of the first occurrence of `pat` in `v` at or after `from`.
pub fn find_pat(v: &[char], pat: &[char], from: usize) -> (r: Option<usize>)
    ensures
        r == (match find_pat_from(v@, pat@, from as int) {
            Some(i) => Some(i as usize),
            None => None::<usize>,
        }),
        r matches Some(i) ==> from <= i && i + pat.len() <= v.len() && occurs_at(v@, pat@, i as int),
{
    proof {
        lemma_find_pat_from(v@, pat@, from as int);
    }
    if pat.len() > v.len() {
        return None;
    }
    let last = v.len() - pat.len();
    let mut i = from;
    while i <= last
        invariant
            from <= i,
            last == v.len() - pat.len(),
            find_pat_from(v@, pat@, from as int) == find_pat_from(v@, pat@, i as int),
        decreases last + 1 - i,
    {
        if matches_at(v, pat, i) {
            return Some(i);
        }
        if i == last {
            assert(find_pat_from(v@, pat@, i + 1) == None::<int>);
            return None;
        }
        i += 1;
    }
    None
}

// ---------------------------------------------------------------------------
// Splitting
// ---------------------------------------------------------------------------

/// The pieces of `s` between occurrences of `sep`, as `str::split` gives them
/// for a single-character separator.
pub open spec fn split_on(s: Seq<char>, sep: char) -> Seq<Seq<char>>
    decreases s.len(),
{
    if s.len() == 0 {
        seq![Seq::empty()]
    } else {
        let p = split_on(s.drop_last(), sep);
        if s.last() == sep {
            p.push(Seq::empty())
        } else {
            p.update(p.len() - 1, p.last().push(s.last()))
        }
    }
}

/// `split_on` always yields at least one piece.
pub proof fn lemma_split_on_nonempty(s: Seq<char>, sep: char)
    ensures
        split_on(s, sep).len() >= 1,
    decreases s.len(),
{
    if s.len() > 0 {
        lemma_split_on_nonempty(s.drop_last(), sep);
    }
}

/// Splits `v` at every `sep`.
pub fn split_chars(v: &[char], sep: char) -> (r: Vec<Vec<char>>)
    ensures
        seqs(r@) == split_on(v@, sep),
{
    let mut pieces: Vec<Vec<char>> = Vec::new();
    let mut cur: Vec<char> = Vec::new();
    let mut i: usize = 0;
    while i < v.len()
        invariant
            i <= v.len(),
            seqs(pieces@).push(cur@) == split_on(v@.take(i as int), sep),
        decreases v.len() - i,
    {
        let c = v[i];
        proof {
            assert(v@.take(i + 1).drop_last() =~= v@.take(i as int));
            lemma_split_on_nonempty(v@.take(i as int), sep);
        }
        if c == sep {
            let done = cur;
            pieces.push(done);
            cur = Vec::new();
            assert(seqs(pieces@).push(cur@) =~= split_on(v@.take(i + 1), sep));
        } else {
            cur.push(c);
            assert(seqs(pieces@).push(cur@) =~= split_on(v@.take(i + 1), sep));
        }
        i += 1;
    }
    assert(v@.take(v.len() as int) =~= v@);
    pieces.push(cur);
    assert(seqs(pieces@) =~= split_on(v@, sep));
    pieces
}

/// A line without a carriage return that ended it.
pub open spec fn strip_cr(s: Seq<char>) -> Seq<char> {
    if s.len() > 0 && s.last() == '\r' {
        s.drop_last()
    } else {
        s
    }
}

/// The lines of `s`, as `str::lines` gives them: pieces between line feeds,
/// a carriage return before a line feed dropped, and no empty last line after
/// a final line feed.
pub open spec fn lines(s: Seq<char>) -> Seq<Seq<char>> {
    let p = split_on(s, '\n');
    let body = p.drop_last().map_values(|l: Seq<char>| strip_cr(l));
    if p.last().len() == 0 {
        body
    } else {
        body.push(p.last())
    }
}

/// `v` without a final carriage return.
fn strip_cr_chars(v: Vec<char>) -> (r: Vec<char>)
    ensures
        r@ == strip_cr(v@),
{
    let mut v = v;
    if v.len() > 0 && v[v.len() - 1] == '\r' {
        v.pop();
    }
    v
}

/// The lines of `v`.
pub fn lines_of(v: &[char]) -> (r: Vec<Vec<char>>)
    ensures
        seqs(r@) == lines(v@),
{
    let mut pieces = split_chars(v, '\n');
    proof {
        lemma_split_on_nonempty(v@, '\n');
    }
    let last = pieces.pop().unwrap();
    let ghost p = split_on(v@, '\n');
    assert(seqs(pieces@) =~= p.drop_last());
    let mut r: Vec<Vec<char>> = Vec::new();
    let mut i: usize = 0;
    let n = pieces.len();
    while i < n
        invariant
            n == pieces.len(),
            i <= n,
            p == split_on(v@, '\n'),
            p.len() >= 1,
            seqs(pieces@) == p.drop_last(),
            seqs(r@) == p.drop_last().take(i as int).map_values(|l: Seq<char>| strip_cr(l)),
        decreases n - i,
    {
        let l = sub_chars(pieces[i].as_slice(), 0, pieces[i].len());
        assert(l@ =~= p.drop_last()[i as int]);
        let l = strip_cr_chars(l);
        let ghost old_r = r@;
        r.push(l);
        let ghost q = p.drop_last();
        assert(seqs(r@) =~= seqs(old_r).push(strip_cr(q[i as int])));
        assert(q.take(i + 1).map_values(|l: Seq<char>| strip_cr(l)) =~= q.take(i as int).map_values(
            |l: Seq<char>| strip_cr(l),
        ).push(strip_cr(q[i as int])));
        i += 1;
    }
    assert(p.drop_last().take(n as int) =~= p.drop_last());
    if last.len() != 0 {
        r.push(last);
        assert(seqs(r@) =~= lines(v@));
    }
    r
}

// ---------------------------------------------------------------------------
// Replacing
// ---------------------------------------------------------------------------

/// `s[from..]` with every occurrence of `pat` replaced by `rep`, matching from
/// left to right without overlap, as `str::replace` does.
pub open spec fn replace_all_from(s: Seq<char>, pat: Seq<char>, rep: Seq<char>, from: int) -> Seq<
    char,
>
    decreases s.len() - from,
{
    if pat.len() == 0 || from < 0 || from > s.len() {
        Seq::empty()
    } else {
        match find_pat_from(s, pat, from) {
            None => s.subrange(from, s.len() as int),
            Some(i) => {
                proof {
                    lemma_find_pat_from(s, pat, from);
                }
                s.subrange(from, i) + rep + replace_all_from(s, pat, rep, i + pat.len())
            },
        }
    }
}

/// `s` with every occurrence of `pat` replaced by `rep`.
pub open spec fn replace_all(s: Seq<char>, pat: Seq<char>, rep: Seq<char>) -> Seq<char> {
    replace_all_from(s, pat, rep, 0)
}

/// `v` with every occurrence of `pat` replaced by `rep`.
pub fn replace_all_chars(v: &[char], pat: &[char], rep: &[char]) -> (r: Vec<char>)
    requires
        pat.len() > 0,
    ensures
        r@ == replace_all(v@, pat@, rep@),
{
    let mut out: Vec<char> = Vec::new();
    let mut i: usize = 0;
    loop
        invariant
            i <= v.len(),
            pat.len() > 0,
            replace_all(v@, pat@, rep@) == out@ + replace_all_from(v@, pat@, rep@, i as int),
        decreases v.len() - i,
    {
        let f = find_pat(v, pat, i);
        proof {
            lemma_find_pat_from(v@, pat@, i as int);
        }
        match f {
            None => {
                let tail = sub_chars(v, i, v.len());
                append_chars(&mut out, tail.as_slice());
                return out;
            },
            Some(j) => {
                let ghost before = out@;
                let mid = sub_chars(v, i, j);
                append_chars(&mut out, mid.as_slice());
                append_chars(&mut out, rep);
                assert(out@ + replace_all_from(v@, pat@, rep@, j + pat.len()) =~= before
                    + replace_all_from(v@, pat@, rep@, i as int));
                i = j + pat.len();
            },
        }
    }
}

// ---------------------------------------------------------------------------
// Ordering
// ---------------------------------------------------------------------------

/// Whether `a` comes strictly before `b` in lexicographic order of code
/// points, the order in which `String`s compare.
pub open spec fn chars_lt(a: Seq<char>, b: Seq<char>) -> bool
    decreases a.len(),
{
    if b.len() == 0 {
        false
    } else if a.len() == 0 {
        true
    } else if a[0] != b[0] {
        (a[0] as int) < (b[0] as int)
    } else {
        chars_lt(a.drop_first(), b.drop_first())
    }
}

/// No sequence comes before itself.
pub proof fn lemma_chars_lt_irreflexive(a: Seq<char>)
    ensures
        !chars_lt(a, a),
    decreases a.len(),
{
    if a.len() > 0 {
        lemma_chars_lt_irreflexive(a.drop_first());
    }
}

/// Of two different sequences one comes before the other, and not both ways.
pub proof fn lemma_chars_lt_total(a: Seq<char>, b: Seq<char>)
    ensures
        a != b ==> (chars_lt(a, b) || chars_lt(b, a)),
        !(chars_lt(a, b) && chars_lt(b, a)),
    decreases a.len(),
{
    if a.len() > 0 && b.len() > 0 {
        if a[0] == b[0] {
            lemma_chars_lt_total(a.drop_first(), b.drop_first());
            if a != b {
                assert(a =~= seq![a[0]] + a.drop_first());
                assert(b =~= seq![b[0]] + b.drop_first());
            }
        } else {
            assert((a[0] as int) != (b[0] as int));
        }
    } else if a.len() == 0 && b.len() == 0 {
        assert(a =~= b);
    }
}

/// The order is transitive.
pub proof fn lemma_chars_lt_transitive(a: Seq<char>, b: Seq<char>, c: Seq<char>)
    requires
        chars_lt(a, b),
        chars_lt(b, c),
    ensures
        chars_lt(a, c),
    decreases a.len(),
{
    if a.len() > 0 && b.len() > 0 && c.len() > 0 {
        if a[0] == b[0] && b[0] == c[0] {
            lemma_chars_lt_transitive(a.drop_first(), b.drop_first(), c.drop_first());
        }
    }
}

/// Whether `a` comes strictly before `b` in lexicographic order.
pub fn chars_less(a: &[char], b: &[char]) -> (r: bool)
    ensures
        r == chars_lt(a@, b@),
{
    let mut i: usize = 0;
    assert(a@.skip(0) =~= a@);
    assert(b@.skip(0) =~= b@);
    while i < a.len() && i < b.len()
        invariant
            i <= a.len(),
            i <= b.len(),
            chars_lt(a@, b@) == chars_lt(a@.skip(i as int), b@.skip(i as int)),
        decreases a.len() - i,
    {
        if a[i] != b[i] {
            return a[i] < b[i];
        }
        assert(a@.skip(i as int).drop_first() =~= a@.skip(i + 1));
        assert(b@.skip(i as int).drop_first() =~= b@.skip(i + 1));
        i += 1;
    }
    i < b.len()
}

/// A pattern whose first character `s` lacks does not occur in `s`.
pub proof fn lemma_find_pat_absent(s: Seq<char>, pat: Seq<char>, from: int)
    requires
        0 <= from,
        pat.len() > 0,
        !s.contains(pat[0]),
    ensures
        find_pat_from(s, pat, from) is None,
{
    lemma_find_pat_from(s, pat, from);
    if let Some(i) = find_pat_from(s, pat, from) {
        assert(s.subrange(i, i + pat.len())[0] == s[i]);
    }
}

/// Replacing a pattern whose first character `s` lacks leaves `s` unchanged.
pub proof fn lemma_replace_absent(s: Seq<char>, pat: Seq<char>, rep: Seq<char>)
    requires
        pat.len() > 0,
        !s.contains(pat[0]),
    ensures
        replace_all(s, pat, rep) == s,
{
    lemma_find_pat_absent(s, pat, 0);
    assert(s.subrange(0, s.len() as int) =~= s);
}

/// `v` with every occurrence of the non-empty `pat` replaced by `rep`.
pub fn replace_str(v: &[char], pat: &str, rep: &str) -> (r: Vec<char>)
    requires
        pat@.len() > 0,
    ensures
        r@ == replace_all(v@, pat@, rep@),
{
    let p = to_chars(pat);
    let q = to_chars(rep);
    replace_all_chars(v, p.as_slice(), q.as_slice())
}

// ---------------------------------------------------------------------------
// Byte offsets
// ---------------------------------------------------------------------------

/// Number of bytes that the UTF-8 encoding of `s` takes.
pub open spec fn byte_len(s: Seq<char>) -> nat
    decreases s.len(),
{
    if s.len() == 0 {
        0
    } else {
        byte_len(s.drop_last()) + utf8_len(s.last())
    }
}

/// The byte offset at which the `i`-th character of `s` starts.
pub open spec fn byte_offset(s: Seq<char>, i: int) -> nat {
    byte_len(s.take(i))
}

/// The first character position at or after `i` whose byte offset is at
/// least `b`, or the length of `s` where there is none: where a walk over the
/// bytes of `s` from offset `b` meets its first character boundary.
pub open spec fn char_at_byte_from(s: Seq<char>, b: int, i: int) -> int
    decreases s.len() - i,
{
    if i >= s.len() {
        s.len() as int
    } else if byte_offset(s, i) >= b {
        i
    } else {
        char_at_byte_from(s, b, i + 1)
    }
}

/// The first character position whose byte offset is at least `b`, or the
/// length of `s`.
pub open spec fn char_at_byte(s: Seq<char>, b: int) -> int {
    char_at_byte_from(s, b, 0)
}

/// Byte lengths add up over concatenation.
pub proof fn lemma_byte_len_add(a: Seq<char>, b: Seq<char>)
    ensures
        byte_len(a + b) == byte_len(a) + byte_len(b),
    decreases b.len(),
{
    if b.len() == 0 {
        assert(a + b =~= a);
    } else {
        lemma_byte_len_add(a, b.drop_last());
        assert((a + b).drop_last() =~= a + b.drop_last());
    }
}

/// The UTF-8 encoding of one character takes `utf8_len` bytes.
proof fn lemma_encode_scalar_len(c: char)
    ensures
        vstd::utf8::encode_scalar(c as u32).len() == utf8_len(c),
{
}

/// `byte_len` is the length of the UTF-8 encoding.
pub proof fn lemma_encode_len(s: Seq<char>)
    ensures
        vstd::utf8::encode_utf8(s).len() == byte_len(s),
    decreases s.len(),
{
    if s.len() > 0 {
        lemma_encode_len(s.drop_first());
        lemma_encode_scalar_len(s[0]);
        assert(s =~= seq![s[0]] + s.drop_first());
        lemma_byte_len_add(seq![s[0]], s.drop_first());
        let one = seq![s[0]];
        assert(one.drop_last() =~= Seq::<char>::empty());
        assert(byte_len(Seq::<char>::empty()) == 0);
        assert(one.last() == s[0]);
        assert(byte_len(one) == byte_len(one.drop_last()) + utf8_len(one.last()));
        assert(byte_len(one) == utf8_len(s[0]));
        assert(byte_len(s) == utf8_len(s[0]) + byte_len(s.drop_first()));
        assert(vstd::utf8::encode_utf8(s) == vstd::utf8::encode_scalar(s[0] as u32)
            + vstd::utf8::encode_utf8(s.drop_first()));
    }
}

/// The offset of the next character adds the current one's bytes, and no
/// offset passes the whole length.
pub proof fn lemma_byte_offset_step(s: Seq<char>, i: int)
    requires
        0 <= i < s.len(),
    ensures
        byte_offset(s, i + 1) == byte_offset(s, i) + utf8_len(s[i]),
        byte_offset(s, i + 1) <= byte_len(s),
{
    assert(s.take(i + 1).drop_last() =~= s.take(i));
    assert(s =~= s.take(i + 1) + s.skip(i + 1));
    lemma_byte_len_add(s.take(i + 1), s.skip(i + 1));
}

/// The byte offset of the `i`-th character of `v`; `limit` bounds the byte
/// length of `v`.
pub fn byte_offset_of(v: &[char], i: usize, limit: usize) -> (b: usize)
    requires
        i <= v.len(),
        byte_len(v@) <= limit,
    ensures
        b == byte_offset(v@, i as int),
{
    let mut b: usize = 0;
    let mut k: usize = 0;
    assert(v@.take(0) =~= Seq::<char>::empty());
    while k < i
        invariant
            k <= i <= v.len(),
            byte_len(v@) <= limit,
            b == byte_offset(v@, k as int),
        decreases i - k,
    {
        proof {
            lemma_byte_offset_step(v@, k as int);
        }
        b = b + char_utf8_len(v[k]);
        k += 1;
    }
    b
}

/// The first character position of `v` whose byte offset is at least `b`,
/// or the length of `v`; `limit` bounds the byte length of `v`.
pub fn char_index_at_byte(v: &[char], b: usize, limit: usize) -> (i: usize)
    requires
        byte_len(v@) <= limit,
    ensures
        i == char_at_byte(v@, b as int),
{
    let mut i: usize = 0;
    let mut off: usize = 0;
    assert(v@.take(0) =~= Seq::<char>::empty());
    while i < v.len() && off < b
        invariant
            i <= v.len(),
            byte_len(v@) <= limit,
            off == byte_offset(v@, i as int),
            char_at_byte(v@, b as int) == char_at_byte_from(v@, b as int, i as int),
        decreases v.len() - i,
    {
        proof {
            lemma_byte_offset_step(v@, i as int);
        }
        off = off + char_utf8_len(v[i]);
        i += 1;
    }
    i
}

/// The characters of `s` and the byte length of `s`.
pub fn chars_and_byte_len(s: &str) -> (r: (Vec<char>, usize))
    ensures
        r.0@ == s@,
        r.1 == byte_len(s@),
{
    let bytes = s.as_bytes();
    proof {
        lemma_encode_len(s@);
    }
    (to_chars(s), bytes.len())
}

/// A pattern that starts a text, whose first character occurs nowhere else
/// in it, is replaced there alone.
pub proof fn lemma_replace_at_start(s: Seq<char>, pat: Seq<char>, rep: Seq<char>)
    requires
        pat.len() > 0,
        occurs_at(s, pat, 0),
        forall|m: int| 1 <= m < s.len() ==> s[m] != pat[0],
    ensures
        replace_all(s, pat, rep) == rep + s.subrange(pat.len() as int, s.len() as int),
{
    assert(s.subrange(0, pat.len() as int) == pat);
    assert(find_pat_from(s, pat, 0) == Some(0int));
    lemma_find_pat_from(s, pat, pat.len() as int);
    if let Some(i) = find_pat_from(s, pat, pat.len() as int) {
        assert(s.subrange(i, i + pat.len())[0] == s[i]);
    }
    assert(s.subrange(0, 0) =~= Seq::<char>::empty());
    assert(replace_all_from(s, pat, rep, 0) == s.subrange(0, 0) + rep + replace_all_from(
        s,
        pat,
        rep,
        pat.len() as int,
    ));
    assert(rep + s.subrange(pat.len() as int, s.len() as int) =~= Seq::<char>::empty() + rep
        + s.subrange(pat.len() as int, s.len() as int));
}

/// A pattern that differs from the start of a text at `k`, whose first
/// character occurs nowhere else in the text, leaves the text unchanged.
pub proof fn lemma_replace_mismatch_at_start(s: Seq<char>, pat: Seq<char>, rep: Seq<char>, k: int)
    requires
        pat.len() > 0,
        forall|m: int| 1 <= m < s.len() ==> s[m] != pat[0],
        0 <= k < pat.len(),
        k < s.len() ==> s[k] != pat[k],
    ensures
        replace_all(s, pat, rep) == s,
{
    lemma_find_pat_from(s, pat, 0);
    if let Some(i) = find_pat_from(s, pat, 0) {
        assert(s.subrange(i, i + pat.len())[0] == s[i]);
        assert(i == 0);
        assert(s.subrange(0, pat.len() as int)[k] == s[k]);
    }
    assert(s.subrange(0, s.len() as int) =~= s);
}

/// A text that starts with `c`, which lacks `¤` after its first character,
/// then a space and a text without `¤`, holds `¤` nowhere after its start.
pub proof fn lemma_mark_only_at_start(c: Seq<char>, t: Seq<char>)
    requires
        c.len() >= 1,
        forall|m: int| 1 <= m < c.len() ==> c[m] != '\u{a4}',
        !t.contains('\u{a4}'),
    ensures
        forall|m: int|
            1 <= m < (c + seq![' '] + t).len() ==> #[trigger] (c + seq![' '] + t)[m] != '\u{a4}',
{
    let s = c + seq![' '] + t;
    assert forall|m: int| 1 <= m < s.len() implies #[trigger] s[m] != '\u{a4}' by {
        if m > c.len() {
            assert(s[m] == t[m - c.len() - 1]);
        }
    }
}

/// A word without `¤`, a space and a text without `¤` hold no `¤`.
pub proof fn lemma_no_mark_joined(w: Seq<char>, t: Seq<char>)
    requires
        !w.contains('\u{a4}'),
        !t.contains('\u{a4}'),
    ensures
        !(w + seq![' '] + t).contains('\u{a4}'),
{
    let s = w + seq![' '] + t;
    if s.contains('\u{a4}') {
        let m = choose|m: int| 0 <= m < s.len() && s[m] == '\u{a4}';
        if m < w.len() {
            assert(w[m] == '\u{a4}');
        } else if m > w.len() {
            assert(t[m - w.len() - 1] == '\u{a4}');
        }
    }
}

// ---------------------------------------------------------------------------
// Text between digits
// ---------------------------------------------------------------------------

/// Whether every character of `x` is an ASCII digit.
pub open spec fn all_digits(x: Seq<char>) -> bool {
    forall|k: int| 0 <= k < x.len() ==> '0' <= #[trigger] x[k] <= '9'
}

/// Whether no character of `p` is an ASCII digit.
pub open spec fn digit_free(p: Seq<char>) -> bool {
    forall|k: int| 0 <= k < p.len() ==> !('0' <= #[trigger] p[k] <= '9')
}

/// Between digits, a pattern without digits occurs only within the middle.
proof fn lemma_occurs_framed(x: Seq<char>, m: Seq<char>, y: Seq<char>, p: Seq<char>, i: int)
    requires
        all_digits(x),
        all_digits(y),
        digit_free(p),
        p.len() > 0,
        0 <= i,
    ensures
        occurs_at(x + m + y, p, i) <==> (x.len() <= i && i - x.len() + p.len() <= m.len()
            && occurs_at(m, p, i - x.len())),
{
    let s = x + m + y;
    if occurs_at(s, p, i) {
        assert(s.subrange(i, i + p.len())[0] == s[i]);
        if i < x.len() {
            assert(s[i] == x[i]);
            assert(false);
        }
        if i - x.len() + p.len() > m.len() {
            let j: int = (x.len() + m.len()) as int;
            assert(s.subrange(i, i + p.len())[j - i] == s[j]);
            assert(s[j] == y[0]);
            assert(false);
        }
        assert(m.subrange(i - x.len(), i - x.len() + p.len()) =~= s.subrange(i, i + p.len()));
    }
    if x.len() <= i && i - x.len() + p.len() <= m.len() && occurs_at(m, p, i - x.len()) {
        assert(m.subrange(i - x.len(), i - x.len() + p.len()) =~= s.subrange(i, i + p.len()));
    }
}

/// Between digits, a pattern without digits is found where it is found in
/// the middle.
proof fn lemma_find_framed(x: Seq<char>, m: Seq<char>, y: Seq<char>, p: Seq<char>, d: int)
    requires
        all_digits(x),
        all_digits(y),
        digit_free(p),
        p.len() > 0,
        0 <= d <= m.len(),
    ensures
        find_pat_from(x + m + y, p, x.len() + d) == (match find_pat_from(m, p, d) {
            Some(e) => Some(e + x.len()),
            None => None,
        }),
        d == 0 ==> find_pat_from(x + m + y, p, 0) == find_pat_from(x + m + y, p, x.len() as int),
{
    let s = x + m + y;
    let f = x.len() + d;
    lemma_find_pat_from(s, p, f);
    lemma_find_pat_from(m, p, d);
    lemma_find_pat_from(s, p, 0);
    match find_pat_from(m, p, d) {
        Some(e) => {
            lemma_occurs_framed(x, m, y, p, e + x.len());
            if let Some(i) = find_pat_from(s, p, f) {
                lemma_occurs_framed(x, m, y, p, i);
                if i < e + x.len() {
                    assert(!occurs_at(m, p, i - x.len()));
                }
            }
        },
        None => {
            if let Some(i) = find_pat_from(s, p, f) {
                lemma_occurs_framed(x, m, y, p, i);
            }
        },
    }
    if d == 0 {
        if let Some(i) = find_pat_from(s, p, 0) {
            lemma_occurs_framed(x, m, y, p, i);
            assert(i >= x.len());
            if let Some(i2) = find_pat_from(s, p, f) {
                assert(i <= i2);
            }
        } else {
            if let Some(i2) = find_pat_from(s, p, f) {
                assert(false);
            }
        }
    }
}

/// Between digits, replacing a pattern without digits replaces it in the
/// middle from `d` on.
proof fn lemma_replace_framed_from(
    x: Seq<char>,
    m: Seq<char>,
    y: Seq<char>,
    p: Seq<char>,
    r: Seq<char>,
    d: int,
)
    requires
        all_digits(x),
        all_digits(y),
        digit_free(p),
        p.len() > 0,
        0 <= d <= m.len(),
    ensures
        replace_all_from(x + m + y, p, r, x.len() + d) == replace_all_from(m, p, r, d) + y,
    decreases m.len() - d,
{
    let s = x + m + y;
    lemma_find_framed(x, m, y, p, d);
    lemma_find_pat_from(m, p, d);
    match find_pat_from(m, p, d) {
        None => {
            assert(s.subrange(x.len() + d, s.len() as int) =~= m.subrange(d, m.len() as int) + y);
        },
        Some(e) => {
            lemma_replace_framed_from(x, m, y, p, r, e + p.len());
            assert(s.subrange(x.len() + d, x.len() + e) =~= m.subrange(d, e));
        },
    }
}

/// Between digits, replacing a pattern without digits replaces it in the
/// middle only.
pub proof fn lemma_replace_framed(x: Seq<char>, m: Seq<char>, y: Seq<char>, p: Seq<char>, r: Seq<char>)
    requires
        all_digits(x),
        all_digits(y),
        digit_free(p),
        p.len() > 0,
    ensures
        replace_all(x + m + y, p, r) == x + replace_all(m, p, r) + y,
        find_pat_from(m, p, 0) is None ==> find_pat_from(x + m + y, p, 0) is None,
{
    let s = x + m + y;
    lemma_find_framed(x, m, y, p, 0);
    lemma_replace_framed_from(x, m, y, p, r, 0);
    lemma_find_pat_from(s, p, 0);
    match find_pat_from(s, p, 0) {
        None => {
            assert(s.subrange(0, s.len() as int) =~= x + s.subrange(x.len() as int, s.len() as int));
            assert(replace_all_from(s, p, r, 0) == s.subrange(0, s.len() as int));
            assert(replace_all_from(s, p, r, x.len() as int) == s.subrange(
                x.len() as int,
                s.len() as int,
            ));
        },
        Some(i) => {
            lemma_find_pat_from(s, p, x.len() as int);
            assert(i >= x.len());
            assert(s.subrange(0, i) =~= x + s.subrange(x.len() as int, i));
            let rest = replace_all_from(s, p, r, i + p.len());
            assert(replace_all_from(s, p, r, x.len() as int) == s.subrange(x.len() as int, i) + r
                + rest);
            assert(replace_all_from(s, p, r, 0) == s.subrange(0, i) + r + rest);
            assert(s.subrange(0, i) + r + rest =~= x + (s.subrange(x.len() as int, i) + r + rest));
        },
    }
    assert(x + (replace_all(m, p, r) + y) =~= x + replace_all(m, p, r) + y);
}

/// Mismatches that rule out every occurrence of `p` in `m` from `d` on:
/// `w[e]` is a position where the window at `e` differs from `p`.
pub open spec fn witnessed(m: Seq<char>, p: Seq<char>, w: Seq<int>, d: int) -> bool
    decreases m.len() - d,
{
    if d < 0 || d + p.len() > m.len() {
        true
    } else {
        &&& 0 <= d < w.len()
        &&& 0 <= w[d] < p.len()
        &&& m[d + w[d]] != p[w[d]]
        &&& witnessed(m, p, w, d + 1)
    }
}

/// Witnessed mismatches leave nothing to find.
pub proof fn lemma_witnessed_none(m: Seq<char>, p: Seq<char>, w: Seq<int>, d: int)
    requires
        0 <= d,
        witnessed(m, p, w, d),
    ensures
        find_pat_from(m, p, d) is None,
    decreases m.len() - d,
{
    if d + p.len() <= m.len() {
        assert(m.subrange(d, d + p.len())[w[d]] == m[d + w[d]]);
        lemma_witnessed_none(m, p, w, d + 1);
    }
}

/// Mismatches for the windows from `d` up to `e`.
pub open spec fn witnessed_until(m: Seq<char>, p: Seq<char>, w: Seq<int>, d: int, e: int) -> bool
    decreases e - d,
{
    if d >= e {
        true
    } else {
        &&& 0 <= d < w.len()
        &&& 0 <= w[d] < p.len()
        &&& d + w[d] < m.len()
        &&& m[d + w[d]] != p[w[d]]
        &&& witnessed_until(m, p, w, d + 1, e)
    }
}

/// A pattern that occurs at `e`, witnessed absent before it and after it, is
/// replaced there alone.
pub proof fn lemma_replace_once(
    m: Seq<char>,
    p: Seq<char>,
    r: Seq<char>,
    e: int,
    w1: Seq<int>,
    w2: Seq<int>,
)
    requires
        p.len() > 0,
        0 <= e,
        witnessed_until(m, p, w1, 0, e),
        m.subrange(e, e + p.len()) == p,
        e + p.len() <= m.len(),
        witnessed(m, p, w2, e + p.len()),
    ensures
        replace_all(m, p, r) == m.subrange(0, e) + r + m.subrange(e + p.len(), m.len() as int),
{
    lemma_until_none(m, p, w1, 0, e);
    assert(find_pat_from(m, p, e) == Some(e));
    lemma_witnessed_none(m, p, w2, e + p.len());
    assert(replace_all_from(m, p, r, e + p.len()) == m.subrange(e + p.len(), m.len() as int));
}

/// Mismatches before `e` carry the search on to `e`.
proof fn lemma_until_none(m: Seq<char>, p: Seq<char>, w: Seq<int>, d: int, e: int)
    requires
        0 <= d <= e,
        e + p.len() <= m.len(),
        p.len() > 0,
        witnessed_until(m, p, w, d, e),
    ensures
        find_pat_from(m, p, d) == find_pat_from(m, p, e),
    decreases e - d,
{
    if d < e {
        assert(m.subrange(d, d + p.len())[w[d]] == m[d + w[d]]);
        lemma_until_none(m, p, w, d + 1, e);
    }
}

/// A pattern that is not found leaves the text unchanged.
pub proof fn lemma_replace_none(s: Seq<char>, p: Seq<char>, r: Seq<char>)
    requires
        p.len() > 0,
        find_pat_from(s, p, 0) is None,
    ensures
        replace_all(s, p, r) == s,
{
    assert(s.subrange(0, s.len() as int) =~= s);
}

} // verus!
