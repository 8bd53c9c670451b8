//! Character-level text operations shared by the rest of the library.
//!
//! Text is modelled as `Seq<char>`. The executable functions work on
//! `Vec<char>` and convert from and to `String` at their edges.

use vstd::prelude::*;

verus! {

/// `String::push` appends one character to the end of the string.
pub assume_specification[ String::push ](s: &mut String, c: char)
    ensures
        final(s)@ == old(s)@.push(c),
;

/// Whether `c` has the Unicode property `White_Space`.
pub open spec fn is_whitespace_char(c: char) -> bool {
    let n = c as u32;
    ||| 0x09 <= n <= 0x0D
    ||| n == 0x20
    ||| n == 0x85
    ||| n == 0xA0
    ||| n == 0x1680
    ||| 0x2000 <= n <= 0x200A
    ||| n == 0x2028
    ||| n == 0x2029
    ||| n == 0x202F
    ||| n == 0x205F
    ||| n == 0x3000
}

/// Whether `pat` occurs in `s` starting at index `i`.
pub open spec fn matches_at(s: Seq<char>, pat: Seq<char>, i: int) -> bool {
    &&& 0 <= i
    &&& i + pat.len() <= s.len()
    &&& s.subrange(i, i + pat.len()) == pat
}

/// The least index at or after `i` where `pat` occurs in `s`, if there is one.
pub open spec fn find_from(s: Seq<char>, pat: Seq<char>, i: int) -> Option<int>
    decreases s.len() - i,
{
    if 0 <= i && i + pat.len() <= s.len() {
        if matches_at(s, pat, i) {
            Some(i)
        } else if i < s.len() {
            find_from(s, pat, i + 1)
        } else {
            None
        }
    } else {
        None
    }
}

/// The first index where `pat` occurs in `s`, if there is one.
pub open spec fn find_first(s: Seq<char>, pat: Seq<char>) -> Option<int> {
    find_from(s, pat, 0)
}

/// `s` from index `i` on, with every occurrence of the non-empty `from`
/// replaced by `to`, scanning left to right without overlap.
pub open spec fn replace_from(s: Seq<char>, from: Seq<char>, to: Seq<char>, i: int) -> Seq<char>
    decreases s.len() - i,
{
    if i < 0 || i >= s.len() || from.len() == 0 {
        Seq::empty()
    } else if matches_at(s, from, i) {
        to + replace_from(s, from, to, i + from.len())
    } else {
        seq![s[i]] + replace_from(s, from, to, i + 1)
    }
}

/// `s` with every occurrence of `from` replaced by `to`. An empty `from`
/// occurs nowhere: the text is left as it is.
pub open spec fn replace_all(s: Seq<char>, from: Seq<char>, to: Seq<char>) -> Seq<char> {
    if from.len() == 0 {
        s
    } else {
        replace_from(s, from, to, 0)
    }
}

/// The first index at or after `i` that holds no whitespace, or the length.
pub open spec fn skip_whitespace(s: Seq<char>, i: int) -> int
    decreases s.len() - i,
{
    if 0 <= i < s.len() && is_whitespace_char(s[i]) {
        skip_whitespace(s, i + 1)
    } else {
        i
    }
}

/// The first index at or after `i` that holds whitespace, or the length.
pub open spec fn skip_word(s: Seq<char>, i: int) -> int
    decreases s.len() - i,
{
    if 0 <= i < s.len() && !is_whitespace_char(s[i]) {
        skip_word(s, i + 1)
    } else {
        i
    }
}

/// The maximal whitespace-free runs of `s` from index `i` on, in order.
pub open spec fn words_from(s: Seq<char>, i: int) -> Seq<Seq<char>>
    decreases s.len() - i,
{
    if 0 <= i < s.len() {
        if is_whitespace_char(s[i]) {
            words_from(s, i + 1)
        } else {
            let end = skip_word(s, i);
            if i < end <= s.len() {
                seq![s.subrange(i, end)] + words_from(s, end)
            } else {
                Seq::empty()
            }
        }
    } else {
        Seq::empty()
    }
}

/// The maximal whitespace-free runs of `s`, in order.
pub open spec fn words(s: Seq<char>) -> Seq<Seq<char>> {
    words_from(s, 0)
}

/// The end of `s[..n]` without its trailing whitespace.
pub open spec fn trimmed_end(s: Seq<char>, n: int) -> int
    decreases n,
{
    if 0 < n <= s.len() && is_whitespace_char(s[n - 1]) {
        trimmed_end(s, n - 1)
    } else {
        n
    }
}

/// `s` without its leading and trailing whitespace.
pub open spec fn trimmed(s: Seq<char>) -> Seq<char> {
    let start = skip_whitespace(s, 0);
    let end = trimmed_end(s, s.len() as int);
    if start < end {
        s.subrange(start, end)
    } else {
        Seq::empty()
    }
}

/// The views of a list of strings.
pub open spec fn views(v: Seq<String>) -> Seq<Seq<char>> {
    v.map_values(|s: String| s@)
}

/// Whether `s` begins with `prefix`.
pub open spec fn starts_with(s: Seq<char>, prefix: Seq<char>) -> bool {
    matches_at(s, prefix, 0)
}

/// What `find_from` finds is an occurrence at or after `i`.
pub proof fn lemma_find_from(s: Seq<char>, pat: Seq<char>, i: int)
    ensures
        find_from(s, pat, i) matches Some(k) ==> i <= k && matches_at(s, pat, k),
    decreases s.len() - i,
{
    if 0 <= i && i + pat.len() <= s.len() && !matches_at(s, pat, i) && i < s.len() {
        lemma_find_from(s, pat, i + 1);
    }
}

/// A word that begins at a character that is no whitespace is not empty
/// and ends within the text.
pub proof fn lemma_skip_word_bounds(s: Seq<char>, i: int)
    requires
        0 <= i <= s.len(),
    ensures
        i <= skip_word(s, i) <= s.len(),
        i < s.len() && !is_whitespace_char(s[i]) ==> i < skip_word(s, i),
    decreases s.len() - i,
{
    if i < s.len() && !is_whitespace_char(s[i]) {
        lemma_skip_word_bounds(s, i + 1);
    }
}

/// Whether `word` is a word: not empty, and without whitespace.
pub open spec fn is_word(word: Seq<char>) -> bool {
    word.len() > 0 && forall|j: int| 0 <= j < word.len() ==> !is_whitespace_char(#[trigger] word[j])
}

/// Between an index and the end of the word that begins there stands no
/// whitespace.
pub proof fn lemma_skip_word_holds_no_whitespace(s: Seq<char>, i: int)
    requires
        0 <= i <= s.len(),
    ensures
        forall|j: int| i <= j < skip_word(s, i) ==> !is_whitespace_char(#[trigger] s[j]),
    decreases s.len() - i,
{
    if i < s.len() && !is_whitespace_char(s[i]) {
        lemma_skip_word_holds_no_whitespace(s, i + 1);
    }
}

/// Every word that splitting finds is a word: not empty, and without
/// whitespace.
pub proof fn lemma_words_are_words(s: Seq<char>, i: int)
    requires
        0 <= i <= s.len(),
    ensures
        forall|k: int| 0 <= k < words_from(s, i).len() ==> is_word(#[trigger] words_from(s, i)[k]),
    decreases s.len() - i,
{
    if i < s.len() {
        if is_whitespace_char(s[i]) {
            lemma_words_are_words(s, i + 1);
            assert(words_from(s, i) == words_from(s, i + 1));
        } else {
            let end = skip_word(s, i);
            lemma_skip_word_bounds(s, i);
            lemma_skip_word_holds_no_whitespace(s, i);
            lemma_words_are_words(s, end);
            let first = s.subrange(i, end);
            assert(is_word(first)) by {
                assert forall|j: int| 0 <= j < first.len() implies !is_whitespace_char(
                    #[trigger] first[j],
                ) by {
                    assert(first[j] == s[i + j]);
                }
            }
            let all = words_from(s, i);
            assert(all == seq![first] + words_from(s, end));
            assert forall|k: int| 0 <= k < all.len() implies is_word(#[trigger] all[k]) by {
                if k > 0 {
                    assert(all[k] == words_from(s, end)[k - 1]);
                } else {
                    assert(all[0] == first);
                }
            }
        }
    } else {
        assert(words_from(s, i).len() == 0);
    }
}

/// The characters of a string.
pub fn to_chars(s: &str) -> (r: Vec<char>)
    ensures
        r@ == s@,
{
    let mut out: Vec<char> = Vec::new();
    for c in it: s.chars()
        invariant
            it.seq() == s@,
            out@ == it.seq().take(it.index()),
    {
        out.push(c);
    }
    out
}

/// The string made of the characters `v[from..to]`.
pub fn string_of_range(v: &Vec<char>, from: usize, to: usize) -> (r: String)
    requires
        from <= to <= v.len(),
    ensures
        r@ == v@.subrange(from as int, to as int),
{
    let mut out = String::new();
    let mut i: usize = from;
    while i < to
        invariant
            from <= i <= to <= v.len(),
            out@ == v@.subrange(from as int, i as int),
        decreases to - i,
    {
        out.push(v[i]);
        i += 1;
    }
    out
}

/// The string made of the characters of `v`.
pub fn from_chars(v: &Vec<char>) -> (r: String)
    ensures
        r@ == v@,
{
    let r = string_of_range(v, 0, v.len());
    assert(v@.subrange(0, v@.len() as int) == v@);
    r
}

/// Whether two strings hold the same characters.
pub fn str_eq(a: &str, b: &str) -> (r: bool)
    ensures
        r == (a@ == b@),
{
    let x = to_chars(a);
    let y = to_chars(b);
    if x.len() != y.len() {
        return false;
    }
    let mut i: usize = 0;
    while i < x.len()
        invariant
            i <= x.len(),
            x.len() == y.len(),
            x@ == a@,
            y@ == b@,
            x@.take(i as int) == y@.take(i as int),
        decreases x.len() - i,
    {
        if x[i] != y[i] {
            assert(x@[i as int] != y@[i as int]);
            return false;
        }
        assert(x@.take(i + 1) == x@.take(i as int).push(x@[i as int]));
        assert(y@.take(i + 1) == y@.take(i as int).push(y@[i as int]));
        i += 1;
    }
    assert(x@.take(x@.len() as int) == x@);
    assert(y@.take(y@.len() as int) == y@);
    true
}

/// Whether `c` is a whitespace character.
pub fn is_whitespace(c: char) -> (r: bool)
    ensures
        r == is_whitespace_char(c),
{
    let n: u32 = c as u32;
    (0x09 <= n && n <= 0x0D) || n == 0x20 || n == 0x85 || n == 0xA0 || n == 0x1680 || (0x2000 <= n
        && n <= 0x200A) || n == 0x2028 || n == 0x2029 || n == 0x202F || n == 0x205F || n == 0x3000
}

/// Whether `pat` occurs in `s` at index `i`.
pub fn occurs_at(s: &Vec<char>, pat: &Vec<char>, i: usize) -> (r: bool)
    ensures
        r == matches_at(s@, pat@, i as int),
{
    if pat.len() > s.len() || i > s.len() - pat.len() {
        return false;
    }
    let mut k: usize = 0;
    while k < pat.len()
        invariant
            k <= pat.len(),
            i + pat.len() <= s.len(),
            s@.subrange(i as int, i + k) == pat@.take(k as int),
        decreases pat.len() - k,
    {
        if s[i + k] != pat[k] {
            assert(s@.subrange(i as int, i + pat.len())[k as int] != pat@[k as int]);
            return false;
        }
        assert(s@.subrange(i as int, i + k + 1) == s@.subrange(i as int, i + k).push(s@[i + k]));
        assert(pat@.take(k + 1) == pat@.take(k as int).push(pat@[k as int]));
        k += 1;
    }
    assert(pat@.take(pat@.len() as int) == pat@);
    true
}

/// The first index where `pat` occurs in `s`.
pub fn find(s: &Vec<char>, pat: &Vec<char>) -> (r: Option<usize>)
    ensures
        match r {
            Some(i) => find_first(s@, pat@) == Some(i as int),
            None => find_first(s@, pat@) is None,
        },
{
    if pat.len() > s.len() {
        return None;
    }
    let last: usize = s.len() - pat.len();
    let mut i: usize = 0;
    while i < last
        invariant
            i <= last,
            last + pat.len() == s.len(),
            find_from(s@, pat@, i as int) == find_first(s@, pat@),
        decreases last - i,
    {
        if occurs_at(s, pat, i) {
            return Some(i);
        }
        i += 1;
    }
    if occurs_at(s, pat, last) {
        Some(last)
    } else {
        assert(find_from(s@, pat@, last + 1) is None);
        None
    }
}

/// `s` with every occurrence of `from` replaced by `to`.
pub fn replace(s: &Vec<char>, from: &Vec<char>, to: &Vec<char>) -> (r: Vec<char>)
    ensures
        r@ == replace_all(s@, from@, to@),
{
    if from.len() == 0 {
        return s.clone();
    }
    let mut out: Vec<char> = Vec::new();
    let mut i: usize = 0;
    while i < s.len()
        invariant
            i <= s.len(),
            from.len() > 0,
            out@ + replace_from(s@, from@, to@, i as int) == replace_from(s@, from@, to@, 0),
        decreases s.len() - i,
    {
        let ghost before = out@;
        if occurs_at(s, from, i) {
            let mut k: usize = 0;
            while k < to.len()
                invariant
                    k <= to.len(),
                    out@ == before + to@.take(k as int),
                decreases to.len() - k,
            {
                out.push(to[k]);
                assert(to@.take(k + 1) == to@.take(k as int).push(to@[k as int]));
                k += 1;
            }
            assert(to@.take(to@.len() as int) == to@);
            assert((before + to@) + replace_from(s@, from@, to@, i + from.len()) == before + (to@
                + replace_from(s@, from@, to@, i + from.len())));
            i += from.len();
        } else {
            out.push(s[i]);
            assert(before.push(s@[i as int]) + replace_from(s@, from@, to@, i + 1) == before + (
            seq![s@[i as int]] + replace_from(s@, from@, to@, i + 1)));
            i += 1;
        }
    }
    assert(out@ + Seq::<char>::empty() == out@);
    out
}

/// `text` with every occurrence of `from` replaced by `to`.
pub fn replace_str(text: &str, from: &str, to: &str) -> (r: String)
    ensures
        r@ == replace_all(text@, from@, to@),
{
    let s = to_chars(text);
    let f = to_chars(from);
    let t = to_chars(to);
    let out = replace(&s, &f, &t);
    from_chars(&out)
}

/// `text` without its leading and trailing whitespace.
pub fn trim(text: &str) -> (r: String)
    ensures
        r@ == trimmed(text@),
{
    let s = to_chars(text);
    let mut start: usize = 0;
    while start < s.len() && is_whitespace(s[start])
        invariant
            start <= s.len(),
            skip_whitespace(s@, start as int) == skip_whitespace(s@, 0),
        decreases s.len() - start,
    {
        start += 1;
    }
    let mut end: usize = s.len();
    while end > 0 && is_whitespace(s[end - 1])
        invariant
            end <= s.len(),
            trimmed_end(s@, end as int) == trimmed_end(s@, s@.len() as int),
        decreases end,
    {
        end -= 1;
    }
    if start < end {
        string_of_range(&s, start, end)
    } else {
        String::new()
    }
}

/// The whitespace-separated words of `s` from index `start` on.
pub fn split_whitespace_from(s: &Vec<char>, start: usize) -> (r: Vec<String>)
    requires
        start <= s.len(),
    ensures
        views(r@) == words_from(s@, start as int),
{
    let mut out: Vec<String> = Vec::new();
    let mut i: usize = start;
    assert(views(out@) + words_from(s@, i as int) == words_from(s@, start as int));
    loop
        invariant
            i <= s.len(),
            views(out@) + words_from(s@, i as int) == words_from(s@, start as int),
        decreases s.len() - i,
    {
        let ghost at_entry = i;
        while i < s.len() && is_whitespace(s[i])
            invariant
                at_entry <= i <= s.len(),
                views(out@) + words_from(s@, i as int) == words_from(s@, start as int),
            decreases s.len() - i,
        {
            i += 1;
        }
        if i >= s.len() {
            assert(views(out@) + Seq::<Seq<char>>::empty() == views(out@));
            return out;
        }
        let first = i;
        while i < s.len() && !is_whitespace(s[i])
            invariant
                at_entry <= first <= i <= s.len(),
                first < s.len(),
                !is_whitespace_char(s@[first as int]),
                skip_word(s@, i as int) == skip_word(s@, first as int),
            decreases s.len() - i,
        {
            i += 1;
        }
        proof {
            lemma_skip_word_bounds(s@, first as int);
            assert(skip_word(s@, i as int) == i);
        }
        let word = string_of_range(s, first, i);
        let ghost before = out@;
        out.push(word);
        assert(views(out@) == views(before).push(word@));
        assert(views(before).push(word@) + words_from(s@, i as int) == views(before) + (
        seq![word@] + words_from(s@, i as int)));
    }
}

/// The whitespace-separated words of `s`.
pub fn split_whitespace(s: &Vec<char>) -> (r: Vec<String>)
    ensures
        views(r@) == words(s@),
{
    split_whitespace_from(s, 0)
}

} // verus!
