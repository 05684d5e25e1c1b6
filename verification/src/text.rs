//! Character-level text handling: Unicode white space, trimming, the first
//! word of a string and string comparison.
use vstd::prelude::*;

verus! {

/// The Unicode `White_Space` property, which is what `char::is_whitespace`,
/// `str::trim` and `str::split_whitespace` go by.
pub open spec fn is_white_space(c: char) -> bool {
    let n: u32 = c as u32;
    ||| 0x09 <= n <= 0x0d
    ||| n == 0x20
    ||| n == 0x85
    ||| n == 0xa0
    ||| n == 0x1680
    ||| 0x2000 <= n <= 0x200a
    ||| n == 0x2028
    ||| n == 0x2029
    ||| n == 0x202f
    ||| n == 0x205f
    ||| n == 0x3000
}

/// Whether `c` is Unicode white space.
pub fn is_white_space_char(c: char) -> (b: bool)
    ensures
        b == is_white_space(c),
{
    let n: u32 = c as u32;
    (0x09 <= n && n <= 0x0d) || n == 0x20 || n == 0x85 || n == 0xa0 || n == 0x1680
        || (0x2000 <= n && n <= 0x200a) || n == 0x2028 || n == 0x2029 || n == 0x202f
        || n == 0x205f || n == 0x3000
}

/// The characters of `s`, in order.
pub fn chars_of(s: &str) -> (v: Vec<char>)
    ensures
        v@ == s@,
{
    let mut v: Vec<char> = Vec::new();
    for c in it: s.chars()
        invariant
            v@ == it.seq().take(it.index()),
    {
        v.push(c);
    }
    v
}


/// Index of the first character at or after `i` that is not white space
/// (the length of `s` when there is none).
pub open spec fn skip_white_space(s: Seq<char>, i: int) -> int
    decreases s.len() - i,
{
    if 0 <= i < s.len() && is_white_space(s[i]) {
        skip_white_space(s, i + 1)
    } else {
        i
    }
}

/// Going back from `j` to no lower than `lo`, the index just past the last
/// character that is not white space.
pub open spec fn back_over_white_space(s: Seq<char>, lo: int, j: int) -> int
    decreases j - lo,
{
    if lo < j <= s.len() && is_white_space(s[j - 1]) {
        back_over_white_space(s, lo, j - 1)
    } else {
        j
    }
}

/// Index of the first white-space character at or after `i` (the length of
/// `s` when there is none).
pub open spec fn word_end(s: Seq<char>, i: int) -> int
    decreases s.len() - i,
{
    if 0 <= i < s.len() && !is_white_space(s[i]) {
        word_end(s, i + 1)
    } else {
        i
    }
}

/// `s` without its leading and trailing white space, as `str::trim` gives it.
pub open spec fn trimmed(s: Seq<char>) -> Seq<char> {
    let start: int = skip_white_space(s, 0);
    s.subrange(start, back_over_white_space(s, start, s.len() as int))
}

/// The first maximal run of characters that are not white space, as the
/// first item of `str::split_whitespace`; `None` when `s` holds only white
/// space.
pub open spec fn first_word(s: Seq<char>) -> Option<Seq<char>> {
    let start: int = skip_white_space(s, 0);
    if start >= s.len() {
        None
    } else {
        Some(s.subrange(start, word_end(s, start)))
    }
}

proof fn lemma_skip_white_space_bounds(s: Seq<char>, i: int)
    requires
        0 <= i <= s.len(),
    ensures
        i <= skip_white_space(s, i) <= s.len(),
        forall|k: int| i <= k < skip_white_space(s, i) ==> is_white_space(#[trigger] s[k]),
        skip_white_space(s, i) < s.len() ==> !is_white_space(s[skip_white_space(s, i)]),
    decreases s.len() - i,
{
    if i < s.len() && is_white_space(s[i]) {
        lemma_skip_white_space_bounds(s, i + 1);
    }
}

proof fn lemma_back_over_white_space_bounds(s: Seq<char>, lo: int, j: int)
    requires
        0 <= lo <= j <= s.len(),
    ensures
        lo <= back_over_white_space(s, lo, j) <= j,
        forall|k: int| back_over_white_space(s, lo, j) <= k < j ==> is_white_space(#[trigger] s[k]),
    decreases j - lo,
{
    if lo < j && is_white_space(s[j - 1]) {
        lemma_back_over_white_space_bounds(s, lo, j - 1);
    }
}

proof fn lemma_word_end_bounds(s: Seq<char>, i: int)
    requires
        0 <= i <= s.len(),
    ensures
        i <= word_end(s, i) <= s.len(),
        forall|k: int| i <= k < word_end(s, i) ==> !is_white_space(#[trigger] s[k]),
    decreases s.len() - i,
{
    if i < s.len() && !is_white_space(s[i]) {
        lemma_word_end_bounds(s, i + 1);
    }
}

proof fn lemma_word_end_reaches_end(s: Seq<char>, i: int)
    requires
        0 <= i <= s.len(),
        forall|k: int| i <= k < s.len() ==> !is_white_space(#[trigger] s[k]),
    ensures
        word_end(s, i) == s.len(),
    decreases s.len() - i,
{
    if i < s.len() {
        lemma_word_end_reaches_end(s, i + 1);
    }
}

/// A non-empty run of characters none of which is white space is its own
/// first word.
pub proof fn lemma_word_is_its_own_first_word(w: Seq<char>)
    requires
        w.len() > 0,
        forall|k: int| 0 <= k < w.len() ==> !is_white_space(#[trigger] w[k]),
    ensures
        first_word(w) == Some(w),
{
    assert(skip_white_space(w, 0) == 0);
    lemma_word_end_reaches_end(w, 0);
    assert(w.subrange(0, w.len() as int) =~= w);
}

/// The first word of a string is its own first word.
pub proof fn lemma_first_word_is_a_word(s: Seq<char>)
    ensures
        first_word(s) matches Some(w) ==> first_word(w) == Some(w),
{
    lemma_skip_white_space_bounds(s, 0);
    let st = skip_white_space(s, 0);
    if st < s.len() {
        lemma_word_end_bounds(s, st);
        lemma_word_end_bounds(s, st + 1);
        assert(word_end(s, st) == word_end(s, st + 1));
        let en = word_end(s, st);
        let w = s.subrange(st, en);
        assert forall|k: int| 0 <= k < w.len() implies !is_white_space(#[trigger] w[k]) by {
            assert(w[k] == s[st + k]);
        }
        lemma_word_is_its_own_first_word(w);
    }
}

/// What trimming keeps: a run of `s` that neither starts nor ends with
/// white space, with only white space before and after it in `s`.
pub proof fn law_trimmed_is_the_inner_run(s: Seq<char>)
    ensures
        exists|st: int|
            #![trigger s.subrange(st, st + trimmed(s).len())]
            0 <= st && st + trimmed(s).len() <= s.len() && trimmed(s) == s.subrange(
                st,
                st + trimmed(s).len(),
            ) && (forall|k: int| 0 <= k < st ==> is_white_space(#[trigger] s[k])) && (forall|
                k: int,
            |
                st + trimmed(s).len() <= k < s.len() ==> is_white_space(#[trigger] s[k])),
        trimmed(s).len() > 0 ==> !is_white_space(trimmed(s)[0]) && !is_white_space(
            trimmed(s)[trimmed(s).len() - 1],
        ),
{
    let st = skip_white_space(s, 0);
    lemma_skip_white_space_bounds(s, 0);
    let en = back_over_white_space(s, st, s.len() as int);
    lemma_back_over_white_space_bounds(s, st, s.len() as int);
    let t = trimmed(s);
    assert(t.len() == en - st);
    assert(t == s.subrange(st, st + t.len()));
    if t.len() > 0 {
        lemma_back_over_stops(s, st, s.len() as int);
        assert(t[0] == s[st]);
        assert(t[t.len() - 1] == s[en - 1]);
    }
}

/// `w` stands in `s` at `st`, with only white space before it and white
/// space (or the end of `s`) just after it.
pub open spec fn starts_first_run(s: Seq<char>, w: Seq<char>, st: int) -> bool {
    &&& 0 <= st
    &&& st + w.len() <= s.len()
    &&& w == s.subrange(st, st + w.len())
    &&& forall|k: int| 0 <= k < st ==> is_white_space(#[trigger] s[k])
    &&& st + w.len() == s.len() || is_white_space(s[st + w.len()])
}

/// What the first word is: a non-empty run of `s` without white space, with
/// only white space before it and white space (or the end of `s`) just
/// after it; there is none only when `s` is all white space.
pub proof fn law_first_word_is_the_first_run(s: Seq<char>)
    ensures
        first_word(s) is None <==> forall|k: int| 0 <= k < s.len() ==> is_white_space(#[trigger] s[k]),
        first_word(s) is Some ==> {
            let w = first_word(s)->0;
            &&& w.len() > 0
            &&& forall|k: int| 0 <= k < w.len() ==> !is_white_space(#[trigger] w[k])
            &&& exists|st: int| #[trigger] starts_first_run(s, w, st)
        },
{
    lemma_skip_white_space_bounds(s, 0);
    let st = skip_white_space(s, 0);
    if st < s.len() {
        lemma_word_end_bounds(s, st);
        lemma_word_end_bounds(s, st + 1);
        assert(word_end(s, st) == word_end(s, st + 1));
        let en = word_end(s, st);
        lemma_word_end_stops(s, st);
        let w = s.subrange(st, en);
        assert forall|k: int| 0 <= k < w.len() implies !is_white_space(#[trigger] w[k]) by {
            assert(w[k] == s[st + k]);
        }
        assert(w.len() == en - st);
        assert(w.len() > 0);
        assert(w == s.subrange(st, st + w.len()));
        assert(forall|k: int| 0 <= k < st ==> is_white_space(#[trigger] s[k]));
        assert(st + w.len() == s.len() || is_white_space(s[st + w.len()]));
        assert(first_word(s) == Some(w));
        assert(starts_first_run(s, first_word(s)->0, st));
        assert(!(forall|k: int| 0 <= k < s.len() ==> is_white_space(#[trigger] s[k]))) by {
            assert(!is_white_space(s[st]));
        }
    }
}

proof fn lemma_word_end_stops(s: Seq<char>, i: int)
    requires
        0 <= i <= s.len(),
    ensures
        word_end(s, i) < s.len() ==> is_white_space(s[word_end(s, i)]),
    decreases s.len() - i,
{
    if i < s.len() && !is_white_space(s[i]) {
        lemma_word_end_stops(s, i + 1);
    }
}

/// Trimming a trimmed string changes nothing.
pub proof fn lemma_trimmed_idempotent(s: Seq<char>)
    ensures
        trimmed(trimmed(s)) == trimmed(s),
{
    let st: int = skip_white_space(s, 0);
    lemma_skip_white_space_bounds(s, 0);
    let en: int = back_over_white_space(s, st, s.len() as int);
    lemma_back_over_white_space_bounds(s, st, s.len() as int);
    let t = s.subrange(st, en);
    assert(trimmed(s) == t);
    if t.len() == 0 {
        assert(skip_white_space(t, 0) == 0);
        assert(back_over_white_space(t, 0, 0) == 0);
        assert(t.subrange(0, 0) =~= t);
    } else {
        assert(t[0] == s[st]);
        assert(!is_white_space(t[0]));
        assert(skip_white_space(t, 0) == 0);
        lemma_back_over_stops(s, st, s.len() as int);
        assert(t[t.len() - 1] == s[en - 1]);
        assert(back_over_white_space(t, 0, t.len() as int) == t.len());
        assert(t.subrange(0, t.len() as int) =~= t);
    }
}

proof fn lemma_back_over_stops(s: Seq<char>, lo: int, j: int)
    requires
        0 <= lo <= j <= s.len(),
        back_over_white_space(s, lo, j) > lo,
    ensures
        !is_white_space(s[back_over_white_space(s, lo, j) - 1]),
    decreases j - lo,
{
    if lo < j && is_white_space(s[j - 1]) {
        lemma_back_over_stops(s, lo, j - 1);
    }
}

/// Appends one character: `String::push`.
#[verifier::external_body]
pub(crate) fn push_char(s: &mut String, c: char)
    ensures
        final(s)@ == old(s)@.push(c),
{
    s.push(c);
}

/// The string made of `v[from..to]`.
pub fn string_from_chars(v: &Vec<char>, from: usize, to: usize) -> (s: String)
    requires
        from <= to <= v.len(),
    ensures
        s@ == v@.subrange(from as int, to as int),
{
    let mut s = String::new();
    let mut i: usize = from;
    while i < to
        invariant
            from <= i <= to <= v.len(),
            s@ == v@.subrange(from as int, i as int),
        decreases to - i,
    {
        push_char(&mut s, v[i]);
        i = i + 1;
        assert(s@ =~= v@.subrange(from as int, i as int));
    }
    s
}

/// Index of the first character at or after `i` that is not white space.
fn skip_white_space_from(v: &Vec<char>, i: usize) -> (r: usize)
    requires
        i <= v.len(),
    ensures
        r == skip_white_space(v@, i as int),
{
    let mut k: usize = i;
    while k < v.len() && is_white_space_char(v[k])
        invariant
            i <= k <= v.len(),
            skip_white_space(v@, i as int) == skip_white_space(v@, k as int),
        decreases v.len() - k,
    {
        k = k + 1;
    }
    k
}

/// `s` without leading and trailing white space (`str::trim`).
pub fn trim(s: &str) -> (r: String)
    ensures
        r@ == trimmed(s@),
{
    let v = chars_of(s);
    let start: usize = skip_white_space_from(&v, 0);
    proof {
        lemma_skip_white_space_bounds(v@, 0);
    }
    let mut end: usize = v.len();
    while start < end && is_white_space_char(v[end - 1])
        invariant
            0 <= start <= end <= v.len(),
            back_over_white_space(v@, start as int, v.len() as int)
                == back_over_white_space(v@, start as int, end as int),
        decreases end,
    {
        end = end - 1;
    }
    string_from_chars(&v, start, end)
}

/// The first word of `s` (`str::split_whitespace().next()`).
pub fn first_word_of(s: &str) -> (r: Option<String>)
    ensures
        match first_word(s@) {
            Some(w) => r is Some && r->0@ == w,
            None => r is None,
        },
{
    let v = chars_of(s);
    let start: usize = skip_white_space_from(&v, 0);
    proof {
        lemma_skip_white_space_bounds(v@, 0);
    }
    if start >= v.len() {
        return None;
    }
    let mut end: usize = start;
    while end < v.len() && !is_white_space_char(v[end])
        invariant
            start <= end <= v.len(),
            word_end(v@, start as int) == word_end(v@, end as int),
        decreases v.len() - end,
    {
        end = end + 1;
    }
    Some(string_from_chars(&v, start, end))
}

/// Whether two strings are equal.
pub(crate) fn same_text(a: &str, b: &str) -> (r: bool)
    ensures
        r == (a@ == b@),
{
    a.to_owned() == b.to_owned()
}

/// The upper-case form of a string as `str::to_uppercase` gives it (full
/// Unicode case mapping, where one character may become several).
pub uninterp spec fn uppercase(s: Seq<char>) -> Seq<char>;

/// `str::to_uppercase`. Its result is a function of the string alone, named
/// `uppercase`; the Unicode tables behind it are not restated here.
#[verifier::external_body]
pub(crate) fn to_uppercase(s: &str) -> (r: String)
    ensures
        r@ == uppercase(s@),
{
    s.to_uppercase()
}

} // verus!
