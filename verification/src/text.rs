//! Text primitives: whitespace, trimming, splitting and decimal rendering.

use vstd::prelude::*;
use vstd::string::*;

verus! {

/// The character contents of a list of strings.
pub open spec fn texts(list: Seq<String>) -> Seq<Seq<char>> {
    list.map_values(|s: String| s@)
}

/// The character contents of an optional string.
pub open spec fn opt_text(s: Option<String>) -> Option<Seq<char>> {
    match s {
        Some(t) => Some(t@),
        None => None,
    }
}

/// Whether `c` has the Unicode `White_Space` property.
pub open spec fn white_space(c: char) -> bool {
    let v = c as u32;
    ||| 0x9 <= v <= 0xd
    ||| v == 0x20
    ||| v == 0x85
    ||| v == 0xa0
    ||| v == 0x1680
    ||| 0x2000 <= v <= 0x200a
    ||| v == 0x2028
    ||| v == 0x2029
    ||| v == 0x202f
    ||| v == 0x205f
    ||| v == 0x3000
}

/// Tests a character for the Unicode `White_Space` property.
pub fn is_white_space(c: char) -> (res: bool)
    ensures
        res == white_space(c),
{
    let v: u32 = c as u32;
    (0x9 <= v && v <= 0xd) || v == 0x20 || v == 0x85 || v == 0xa0 || v == 0x1680 || (0x2000 <= v
        && v <= 0x200a) || v == 0x2028 || v == 0x2029 || v == 0x202f || v == 0x205f || v == 0x3000
}

/// How many characters from the start of `s` are whitespace.
pub open spec fn leading_space(s: Seq<char>) -> nat
    decreases s.len(),
{
    if s.len() > 0 && white_space(s[0]) {
        1 + leading_space(s.drop_first())
    } else {
        0
    }
}

/// How many characters from the start of `s` are not whitespace.
pub open spec fn leading_word(s: Seq<char>) -> nat
    decreases s.len(),
{
    if s.len() > 0 && !white_space(s[0]) {
        1 + leading_word(s.drop_first())
    } else {
        0
    }
}

/// The maximal runs of non-whitespace characters in `s`, in order.
pub open spec fn whitespace_words(s: Seq<char>) -> Seq<Seq<char>>
    decreases s.len(),
{
    let start = leading_space(s) as int;
    let rest = s.skip(start);
    if start >= s.len() {
        Seq::empty()
    } else {
        let len = leading_word(rest) as int;
        if len == 0 {
            Seq::empty()
        } else {
            proof {
                lemma_leading_word_bound(rest);
            }
            seq![rest.take(len)] + whitespace_words(rest.skip(len))
        }
    }
}

/// `s` without the whitespace at its start.
pub open spec fn trim_start(s: Seq<char>) -> Seq<char> {
    s.skip(leading_space(s) as int)
}

/// `s` without the whitespace at its end.
pub open spec fn trim_end(s: Seq<char>) -> Seq<char>
    decreases s.len(),
{
    if s.len() > 0 && white_space(s.last()) {
        trim_end(s.drop_last())
    } else {
        s
    }
}

/// `s` without the whitespace at either end.
pub open spec fn trimmed(s: Seq<char>) -> Seq<char> {
    trim_end(trim_start(s))
}

/// The leading word of a text is no longer than the text.
pub proof fn lemma_leading_word_bound(s: Seq<char>)
    ensures
        leading_word(s) <= s.len(),
    decreases s.len(),
{
    if s.len() > 0 {
        lemma_leading_word_bound(s.drop_first());
    }
}

proof fn lemma_leading_space(s: Seq<char>, n: int)
    requires
        0 <= n <= s.len(),
        forall|i: int| 0 <= i < n ==> white_space(#[trigger] s[i]),
        n == s.len() || !white_space(s[n]),
    ensures
        leading_space(s) == n,
    decreases s.len(),
{
    if n > 0 {
        let t = s.drop_first();
        assert forall|i: int| 0 <= i < n - 1 implies white_space(#[trigger] t[i]) by {
            assert(t[i] == s[i + 1]);
        }
        lemma_leading_space(t, n - 1);
    }
}

proof fn lemma_leading_word(s: Seq<char>, n: int)
    requires
        0 <= n <= s.len(),
        forall|i: int| 0 <= i < n ==> !white_space(#[trigger] s[i]),
        n == s.len() || white_space(s[n]),
    ensures
        leading_word(s) == n,
    decreases s.len(),
{
    if n > 0 {
        let t = s.drop_first();
        assert forall|i: int| 0 <= i < n - 1 implies !white_space(#[trigger] t[i]) by {
            assert(t[i] == s[i + 1]);
        }
        lemma_leading_word(t, n - 1);
    }
}

proof fn lemma_trim_end(s: Seq<char>, n: int)
    requires
        0 <= n <= s.len(),
        forall|i: int| n <= i < s.len() ==> white_space(#[trigger] s[i]),
        n == 0 || !white_space(s[n - 1]),
    ensures
        trim_end(s) == s.take(n),
    decreases s.len(),
{
    if n == s.len() {
        assert(s.take(n) =~= s);
    } else {
        assert(s.last() == s[s.len() - 1]);
        lemma_trim_end(s.drop_last(), n);
        assert(s.drop_last().take(n) =~= s.take(n));
    }
}

/// The words of a text are not empty and hold no whitespace; together they are all of the text
/// but its whitespace, in order.
pub proof fn law_words_are_what_is_not_whitespace(s: Seq<char>)
    ensures
        forall|i: int|
            0 <= i < whitespace_words(s).len() ==> (#[trigger] whitespace_words(s)[i]).len() > 0,
        forall|i: int, j: int|
            0 <= i < whitespace_words(s).len() && 0 <= j < whitespace_words(s)[i].len()
                ==> !white_space(#[trigger] whitespace_words(s)[i][j]),
        whitespace_words(s).flatten() == s.filter(|c: char| !white_space(c)),
    decreases s.len(),
{
    let visible = |c: char| !white_space(c);
    let words = whitespace_words(s);
    let start = leading_space(s) as int;
    lemma_space_extent(s);
    let rest = s.skip(start);
    assert(s =~= s.take(start) + rest);
    Seq::filter_distributes_over_add(s.take(start), rest, visible);
    lemma_filter_none(s.take(start), visible);
    assert(s.filter(visible) =~= rest.filter(visible));
    if start >= s.len() {
        assert(rest =~= Seq::<char>::empty());
        lemma_filter_none(rest, visible);
        assert(words.flatten() =~= s.filter(visible));
    } else {
        let len = leading_word(rest) as int;
        lemma_word_extent(rest);
        assert(rest[0] == s[start]);
        let word = rest.take(len);
        let tail = rest.skip(len);
        law_words_are_what_is_not_whitespace(tail);
        assert(rest =~= word + tail);
        Seq::filter_distributes_over_add(word, tail, visible);
        lemma_filter_all(word, visible);
        assert(words == seq![word] + whitespace_words(tail));
        assert(words.first() == word);
        assert(words.drop_first() =~= whitespace_words(tail));
        assert(words.flatten() =~= word + whitespace_words(tail).flatten());
        assert forall|i: int| 0 <= i < words.len() implies (#[trigger] words[i]).len() > 0 by {
            if i > 0 {
                assert(words[i] == whitespace_words(tail)[i - 1]);
            }
        }
        assert forall|i: int, j: int|
            0 <= i < words.len() && 0 <= j < words[i].len() implies !white_space(
            #[trigger] words[i][j],
        ) by {
            if i > 0 {
                assert(words[i] == whitespace_words(tail)[i - 1]);
                assert(!white_space(whitespace_words(tail)[i - 1][j]));
            } else {
                assert(words[i][j] == rest[j]);
            }
        }
    }
}

/// The contents of a list of strings are those of its strings, one for one and in order.
pub proof fn law_texts_are_one_for_one(list: Seq<String>)
    ensures
        texts(list).len() == list.len(),
        forall|i: int| 0 <= i < list.len() ==> #[trigger] texts(list)[i] == list[i]@,
{
}

/// The contents of an optional string are those of the string, if there is one.
pub proof fn law_optional_text_is_the_text(s: String)
    ensures
        opt_text(Some(s)) == Some(s@),
        opt_text(None) == None::<Seq<char>>,
{
}

/// Whitespace between two texts separates their words: the words of the whole are those of the
/// one followed by those of the other. A text without whitespace is its only word, and the empty
/// text has none.
pub proof fn law_whitespace_separates_words(a: Seq<char>, space: char, b: Seq<char>)
    requires
        white_space(space),
    ensures
        whitespace_words(a + seq![space] + b) == whitespace_words(a) + whitespace_words(b),
        a.len() == 0 ==> whitespace_words(a).len() == 0,
        a.len() > 0 && (forall|i: int| 0 <= i < a.len() ==> !white_space(#[trigger] a[i]))
            ==> whitespace_words(a) == seq![a],
    decreases a.len(),
{
    let s = a + seq![space] + b;
    if a.len() == 0 {
        assert(s =~= seq![space] + b);
        lemma_words_skip_space(space, b);
        assert(whitespace_words(a) =~= Seq::<Seq<char>>::empty());
        assert(whitespace_words(a) + whitespace_words(b) =~= whitespace_words(b));
    } else if white_space(a[0]) {
        let t = a.drop_first();
        assert(a =~= seq![a[0]] + t);
        assert(s =~= seq![a[0]] + (t + seq![space] + b));
        lemma_words_skip_space(a[0], t);
        lemma_words_skip_space(a[0], t + seq![space] + b);
        law_whitespace_separates_words(t, space, b);
    } else {
        lemma_word_extent(a);
        lemma_leading_space(a, 0);
        lemma_leading_space(s, 0);
        let k = leading_word(a) as int;
        assert(k > 0);
        assert forall|i: int| 0 <= i < k implies !white_space(#[trigger] s[i]) by {
            assert(s[i] == a[i]);
        }
        assert(white_space(s[k])) by {
            if k < a.len() {
                assert(s[k] == a[k]);
            } else {
                assert(s[k] == space);
            }
        }
        lemma_leading_word(s, k);
        let t = a.skip(k);
        assert(a.skip(0) =~= a);
        assert(s.skip(0) =~= s);
        assert(s.take(k) =~= a.take(k));
        assert(s.skip(k) =~= t + seq![space] + b);
        law_whitespace_separates_words(t, space, b);
        assert(whitespace_words(s) =~= whitespace_words(a) + whitespace_words(b));
        if forall|i: int| 0 <= i < a.len() ==> !white_space(#[trigger] a[i]) {
            assert(k == a.len()) by {
                if k < a.len() {
                    assert(white_space(a[k]));
                }
            }
            assert(a.take(k) =~= a);
            assert(whitespace_words(a) =~= seq![a]);
        }
    }
}

proof fn lemma_words_skip_space(space: char, s: Seq<char>)
    requires
        white_space(space),
    ensures
        whitespace_words(seq![space] + s) == whitespace_words(s),
{
    let t = seq![space] + s;
    assert(t.drop_first() =~= s);
    let k = leading_space(s) as int;
    lemma_space_extent(s);
    assert(t.skip(k + 1) =~= s.skip(k));
}

/// Whitespace put before or after a text does not change what it is trimmed to, and a text with
/// no whitespace at either end is trimmed to itself.
pub proof fn law_trimming_forgets_outer_whitespace(s: Seq<char>, space: char)
    requires
        white_space(space),
    ensures
        trimmed(seq![space] + s) == trimmed(s),
        trimmed(s.push(space)) == trimmed(s),
        s.len() == 0 || (!white_space(s.first()) && !white_space(s.last())) ==> trimmed(s) == s,
{
    let k = leading_space(s) as int;
    lemma_space_extent(s);
    let front = seq![space] + s;
    assert(front.drop_first() =~= s);
    assert(front.skip(k + 1) =~= s.skip(k));
    let back = s.push(space);
    assert forall|i: int| 0 <= i < k implies white_space(#[trigger] back[i]) by {
        assert(back[i] == s[i]);
    }
    if k < s.len() {
        assert(back[k] == s[k]);
        lemma_leading_space(back, k);
        assert(back.skip(k) =~= s.skip(k).push(space));
        assert(s.skip(k).push(space).drop_last() =~= s.skip(k));
        assert(back.skip(k).last() == space);
    } else {
        assert forall|i: int| 0 <= i < back.len() implies white_space(#[trigger] back[i]) by {
            if i < k {
                assert(back[i] == s[i]);
            }
        }
        lemma_leading_space(back, back.len() as int);
        assert(back.skip(back.len() as int) =~= Seq::<char>::empty());
        assert(s.skip(k) =~= Seq::<char>::empty());
    }
    if s.len() == 0 || (!white_space(s.first()) && !white_space(s.last())) {
        lemma_leading_space(s, 0);
        assert(s.skip(0) =~= s);
    }
}

/// A trimmed text has no whitespace at either end, and what was stripped is all whitespace.
pub proof fn law_trimming_strips_whitespace_only(s: Seq<char>)
    ensures
        ({
            let start = leading_space(s) as int;
            let out = trimmed(s);
            &&& out.len() > 0 ==> !white_space(out.first()) && !white_space(out.last())
            &&& start + out.len() <= s.len()
            &&& out == s.subrange(start, start + out.len())
            &&& forall|i: int|
                0 <= i < start || start + out.len() <= i < s.len() ==> white_space(#[trigger] s[i])
        }),
{
    let start = leading_space(s) as int;
    lemma_space_extent(s);
    let rest = trim_start(s);
    lemma_trim_end_extent(rest);
    let out = trimmed(s);
    assert(out =~= s.subrange(start, start + out.len()));
    if out.len() > 0 {
        assert(out.first() == s[start]);
    }
    assert forall|i: int|
        0 <= i < start || start + out.len() <= i < s.len() implies white_space(#[trigger] s[i]) by {
        if i >= start {
            assert(s[i] == rest[i - start]);
        }
    }
}

/// A text between whitespace is what the whole is trimmed to, if it is empty or has no whitespace
/// at either end of its own.
pub proof fn law_trimming_leaves_the_middle(before: Seq<char>, mid: Seq<char>, after: Seq<char>)
    requires
        forall|i: int| 0 <= i < before.len() ==> white_space(#[trigger] before[i]),
        forall|i: int| 0 <= i < after.len() ==> white_space(#[trigger] after[i]),
        mid.len() == 0 || (!white_space(mid.first()) && !white_space(mid.last())),
    ensures
        trimmed(before + mid + after) == mid,
{
    let s = before + mid + after;
    if mid.len() == 0 {
        assert forall|i: int| 0 <= i < s.len() implies white_space(#[trigger] s[i]) by {
            if i < before.len() {
                assert(s[i] == before[i]);
            } else {
                assert(s[i] == after[i - before.len()]);
            }
        }
        lemma_leading_space(s, s.len() as int);
        assert(s.skip(s.len() as int) =~= mid);
    } else {
        let n = before.len() as int;
        assert forall|i: int| 0 <= i < n implies white_space(#[trigger] s[i]) by {
            assert(s[i] == before[i]);
        }
        assert(s[n] == mid.first());
        lemma_leading_space(s, n);
        let rest = s.skip(n);
        assert(rest =~= mid + after);
        assert forall|i: int| mid.len() <= i < rest.len() implies white_space(
            #[trigger] rest[i],
        ) by {
            assert(rest[i] == after[i - mid.len()]);
        }
        assert(rest[mid.len() - 1] == mid.last());
        lemma_trim_end(rest, mid.len() as int);
        assert(rest.take(mid.len() as int) =~= mid);
    }
}

proof fn lemma_space_extent(s: Seq<char>)
    ensures
        leading_space(s) <= s.len(),
        forall|i: int| 0 <= i < leading_space(s) ==> white_space(#[trigger] s[i]),
        leading_space(s) < s.len() ==> !white_space(s[leading_space(s) as int]),
    decreases s.len(),
{
    if s.len() > 0 && white_space(s[0]) {
        let t = s.drop_first();
        lemma_space_extent(t);
        assert forall|i: int| 0 <= i < leading_space(s) implies white_space(#[trigger] s[i]) by {
            if i > 0 {
                assert(s[i] == t[i - 1]);
            }
        }
    }
}

proof fn lemma_word_extent(s: Seq<char>)
    ensures
        leading_word(s) <= s.len(),
        forall|i: int| 0 <= i < leading_word(s) ==> !white_space(#[trigger] s[i]),
        leading_word(s) < s.len() ==> white_space(s[leading_word(s) as int]),
    decreases s.len(),
{
    if s.len() > 0 && !white_space(s[0]) {
        let t = s.drop_first();
        lemma_word_extent(t);
        assert forall|i: int| 0 <= i < leading_word(s) implies !white_space(#[trigger] s[i]) by {
            if i > 0 {
                assert(s[i] == t[i - 1]);
            }
        }
    }
}

proof fn lemma_trim_end_extent(s: Seq<char>)
    ensures
        trim_end(s).len() <= s.len(),
        trim_end(s) == s.take(trim_end(s).len() as int),
        trim_end(s).len() > 0 ==> !white_space(trim_end(s).last()),
        forall|i: int| trim_end(s).len() <= i < s.len() ==> white_space(#[trigger] s[i]),
    decreases s.len(),
{
    if s.len() > 0 && white_space(s.last()) {
        let t = s.drop_last();
        lemma_trim_end_extent(t);
        assert(trim_end(s) =~= s.take(trim_end(s).len() as int));
        assert forall|i: int| trim_end(s).len() <= i < s.len() implies white_space(
            #[trigger] s[i],
        ) by {
            if i < t.len() {
                assert(s[i] == t[i]);
            }
        }
    } else {
        assert(trim_end(s) =~= s.take(s.len() as int));
    }
}

proof fn lemma_filter_none(s: Seq<char>, keep: spec_fn(char) -> bool)
    requires
        forall|i: int| 0 <= i < s.len() ==> !keep(#[trigger] s[i]),
    ensures
        s.filter(keep).len() == 0,
    decreases s.len(),
{
    reveal(Seq::filter);
    if s.len() > 0 {
        let t = s.drop_last();
        assert forall|i: int| 0 <= i < t.len() implies !keep(#[trigger] t[i]) by {
            assert(t[i] == s[i]);
        }
        lemma_filter_none(t, keep);
    }
}

proof fn lemma_filter_all(s: Seq<char>, keep: spec_fn(char) -> bool)
    requires
        forall|i: int| 0 <= i < s.len() ==> keep(#[trigger] s[i]),
    ensures
        s.filter(keep) == s,
    decreases s.len(),
{
    reveal(Seq::filter);
    if s.len() > 0 {
        let t = s.drop_last();
        assert forall|i: int| 0 <= i < t.len() implies keep(#[trigger] t[i]) by {
            assert(t[i] == s[i]);
        }
        lemma_filter_all(t, keep);
        assert(s =~= t.push(s.last()));
    }
}

/// The characters of a string, as a vector.
pub fn characters(s: &str) -> (res: Vec<char>)
    ensures
        res@ == s@,
{
    let mut res: Vec<char> = Vec::new();
    for c in it: s.chars()
        invariant
            it.seq() == s@,
            res@ == s@.take(it.index() as int),
    {
        res.push(c);
        assert(s@.take(it.index() + 1) =~= s@.take(it.index() as int).push(c));
    }
    assert(s@.take(s@.len() as int) =~= s@);
    res
}

/// Splits a string into the maximal runs of non-whitespace characters.
pub fn split_whitespace(s: &str) -> (res: Vec<String>)
    ensures
        texts(res@) == whitespace_words(s@),
{
    let chars = characters(s);
    let mut res: Vec<String> = Vec::new();
    let mut pos: usize = 0;
    assert(s@.skip(0) =~= s@);
    assert(texts(res@) + whitespace_words(s@) =~= whitespace_words(s@));
    loop
        invariant
            chars@ == s@,
            pos <= s@.len(),
            whitespace_words(s@) == texts(res@) + whitespace_words(s@.skip(pos as int)),
        ensures
            whitespace_words(s@) == texts(res@),
        decreases s@.len() - pos,
    {
        let ghost tail = s@.skip(pos as int);
        let mut start: usize = pos;
        while start < chars.len() && is_white_space(chars[start])
            invariant
                chars@ == s@,
                pos <= start <= s@.len(),
                forall|i: int| pos <= i < start ==> white_space(#[trigger] s@[i]),
            decreases s@.len() - start,
        {
            start += 1;
        }
        proof {
            assert forall|i: int| 0 <= i < start - pos implies white_space(#[trigger] tail[i]) by {
                assert(tail[i] == s@[pos + i]);
            }
            lemma_leading_space(tail, start - pos);
        }
        if start == chars.len() {
            assert(whitespace_words(tail) =~= Seq::<Seq<char>>::empty());
            assert(texts(res@) + Seq::<Seq<char>>::empty() =~= texts(res@));
            break;
        }
        let mut end: usize = start;
        while end < chars.len() && !is_white_space(chars[end])
            invariant
                chars@ == s@,
                start <= end <= s@.len(),
                forall|i: int| start <= i < end ==> !white_space(#[trigger] s@[i]),
            decreases s@.len() - end,
        {
            end += 1;
        }
        let ghost rest = tail.skip(start - pos);
        proof {
            assert(rest =~= s@.skip(start as int));
            assert forall|i: int| 0 <= i < end - start implies !white_space(#[trigger] rest[i]) by {
                assert(rest[i] == s@[start + i]);
            }
            lemma_leading_word(rest, end - start);
            assert(rest[0] == s@[start as int]);
            assert(end > start);
        }
        let word: String = s.substring_char(start, end).to_owned();
        proof {
            assert(word@ =~= rest.take(end - start));
            assert(rest.skip(end - start) =~= s@.skip(end as int));
            let before = texts(res@);
            assert(texts(res@.push(word)) =~= before.push(word@));
            assert(before + (seq![word@] + whitespace_words(s@.skip(end as int))) =~= before.push(
                word@,
            ) + whitespace_words(s@.skip(end as int)));
        }
        res.push(word);
        pos = end;
    }
    res
}

/// Strips the whitespace at either end of a string.
pub fn trim(s: &str) -> (res: String)
    ensures
        res@ == trimmed(s@),
{
    let chars = characters(s);
    let mut start: usize = 0;
    while start < chars.len() && is_white_space(chars[start])
        invariant
            chars@ == s@,
            start <= s@.len(),
            forall|i: int| 0 <= i < start ==> white_space(#[trigger] s@[i]),
        decreases s@.len() - start,
    {
        start += 1;
    }
    let mut end: usize = chars.len();
    while start < end && is_white_space(chars[end - 1])
        invariant
            chars@ == s@,
            start <= end <= s@.len(),
            forall|i: int| end <= i < s@.len() ==> white_space(#[trigger] s@[i]),
        decreases end,
    {
        end -= 1;
    }
    proof {
        lemma_leading_space(s@, start as int);
        let rest = s@.skip(start as int);
        assert forall|i: int| end - start <= i < rest.len() implies white_space(
            #[trigger] rest[i],
        ) by {
            assert(rest[i] == s@[start + i]);
        }
        if end > start {
            assert(rest[end - start - 1] == s@[end - 1]);
        }
        lemma_trim_end(rest, end - start);
        assert(rest.take(end - start) =~= s@.subrange(start as int, end as int));
    }
    s.substring_char(start, end).to_owned()
}

/// The decimal digit for a value below ten.
pub open spec fn digit(d: nat) -> char {
    if d == 0 {
        '0'
    } else if d == 1 {
        '1'
    } else if d == 2 {
        '2'
    } else if d == 3 {
        '3'
    } else if d == 4 {
        '4'
    } else if d == 5 {
        '5'
    } else if d == 6 {
        '6'
    } else if d == 7 {
        '7'
    } else if d == 8 {
        '8'
    } else {
        '9'
    }
}

/// The decimal digits of a number, most significant first and without leading zeros.
pub open spec fn decimal(n: nat) -> Seq<char>
    decreases n,
{
    if n < 10 {
        seq![digit(n)]
    } else {
        decimal(n / 10).push(digit(n % 10))
    }
}

/// The decimal form of a signed number.
pub open spec fn signed_decimal(n: int) -> Seq<char> {
    if n < 0 {
        seq!['-'] + decimal((-n) as nat)
    } else {
        decimal(n as nat)
    }
}

/// The number that a text of decimal digits stands for.
pub open spec fn number(digits: Seq<char>) -> int
    decreases digits.len(),
{
    if digits.len() == 0 {
        0
    } else {
        10 * number(digits.drop_last()) + (digits.last() as int - '0' as int)
    }
}

/// The decimal form of a number reads back as that number. It is made of digits only, has at
/// least one, and begins with a zero only if it is that digit alone.
pub proof fn law_decimal_reads_back(n: nat)
    ensures
        number(decimal(n)) == n,
        decimal(n).len() > 0,
        forall|i: int| 0 <= i < decimal(n).len() ==> '0' <= #[trigger] decimal(n)[i] <= '9',
        decimal(n).len() > 1 ==> decimal(n)[0] != '0',
    decreases n,
{
    reveal_with_fuel(number, 2);
    if n >= 10 {
        law_decimal_reads_back(n / 10);
        let d = decimal(n / 10);
        assert(decimal(n).drop_last() =~= d);
        assert forall|i: int| 0 <= i < decimal(n).len() implies '0' <= #[trigger] decimal(n)[i]
            <= '9' by {
            if i < d.len() {
                assert(decimal(n)[i] == d[i]);
            }
        }
        if d.len() == 1 && d[0] == '0' {
            assert(d.drop_last() =~= Seq::<char>::empty());
            assert(number(d) == 0);
        }
        assert(decimal(n)[0] == d[0]);
    } else {
        assert(decimal(n).drop_last() =~= Seq::<char>::empty());
    }
}

/// The decimal form of a signed number is that of its magnitude, after a minus sign if the number
/// is negative.
pub proof fn law_signed_decimal_has_sign_and_magnitude(n: int)
    ensures
        n >= 0 ==> number(signed_decimal(n)) == n && signed_decimal(n)[0] != '-',
        n < 0 ==> signed_decimal(n)[0] == '-' && number(signed_decimal(n).skip(1)) == -n,
        n < 0 ==> signed_decimal(n).skip(1) == signed_decimal(-n),
{
    if n < 0 {
        law_decimal_reads_back((-n) as nat);
        assert(signed_decimal(n).skip(1) =~= decimal((-n) as nat));
    } else {
        law_decimal_reads_back(n as nat);
        assert('0' <= decimal(n as nat)[0]);
    }
}

fn digit_text(d: u64) -> (res: &'static str)
    requires
        d < 10,
    ensures
        res@ == seq![digit(d as nat)],
{
    proof {
        reveal_strlit("0");
        reveal_strlit("1");
        reveal_strlit("2");
        reveal_strlit("3");
        reveal_strlit("4");
        reveal_strlit("5");
        reveal_strlit("6");
        reveal_strlit("7");
        reveal_strlit("8");
        reveal_strlit("9");
    }
    match d {
        0 => "0",
        1 => "1",
        2 => "2",
        3 => "3",
        4 => "4",
        5 => "5",
        6 => "6",
        7 => "7",
        8 => "8",
        _ => "9",
    }
}

/// Renders a number in decimal.
pub fn decimal_text(n: u64) -> (res: String)
    ensures
        res@ == decimal(n as nat),
    decreases n,
{
    if n < 10 {
        digit_text(n).to_owned()
    } else {
        let mut res = decimal_text(n / 10);
        res.append(digit_text(n % 10));
        assert(res@ =~= decimal(n as nat));
        res
    }
}

/// Renders a signed number in decimal.
pub fn signed_decimal_text(n: i32) -> (res: String)
    ensures
        res@ == signed_decimal(n as int),
{
    if n < 0 {
        let magnitude: u64 = (-(n as i64)) as u64;
        let mut res = String::new();
        proof {
            reveal_strlit("-");
        }
        res.append("-");
        res.append(decimal_text(magnitude).as_str());
        assert(res@ =~= signed_decimal(n as int));
        res
    } else {
        decimal_text(n as u64)
    }
}

} // verus!
