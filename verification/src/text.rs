//! Whitespace, trimming and splitting into tokens.
//!
//! Text is modelled as a sequence of characters. Whitespace is the set of
//! characters with the Unicode property `White_Space`.

use vstd::prelude::*;

verus! {

/// Whether `c` has the Unicode property `White_Space`.
pub open spec fn whitespace(c: char) -> bool {
    ||| '\u{9}' <= c <= '\u{d}'
    ||| c == ' '
    ||| c == '\u{85}'
    ||| c == '\u{a0}'
    ||| c == '\u{1680}'
    ||| '\u{2000}' <= c <= '\u{200a}'
    ||| c == '\u{2028}'
    ||| c == '\u{2029}'
    ||| c == '\u{202f}'
    ||| c == '\u{205f}'
    ||| c == '\u{3000}'
}

/// Whether `s` holds whitespace only. The empty sequence is blank.
pub open spec fn blank(s: Seq<char>) -> bool {
    forall|i: int| 0 <= i < s.len() ==> whitespace(#[trigger] s[i])
}

/// `s` without its leading whitespace.
pub open spec fn trim_start(s: Seq<char>) -> Seq<char>
    decreases s.len(),
{
    if s.len() > 0 && whitespace(s.first()) {
        trim_start(s.drop_first())
    } else {
        s
    }
}

/// `s` without its trailing whitespace.
pub open spec fn trim_end(s: Seq<char>) -> Seq<char>
    decreases s.len(),
{
    if s.len() > 0 && whitespace(s.last()) {
        trim_end(s.drop_last())
    } else {
        s
    }
}

/// `s` without its leading and trailing whitespace.
pub open spec fn trimmed(s: Seq<char>) -> Seq<char> {
    trim_end(trim_start(s))
}

/// Whether `s` neither starts nor ends with whitespace.
pub open spec fn tight(s: Seq<char>) -> bool {
    s.len() > 0 ==> !whitespace(s.first()) && !whitespace(s.last())
}

/// Whether `s` is a word: not empty, and without whitespace.
pub open spec fn word(s: Seq<char>) -> bool {
    s.len() > 0 && forall|i: int| 0 <= i < s.len() ==> !whitespace(#[trigger] s[i])
}

/// The length of the longest prefix of `s` that holds no whitespace.
pub open spec fn word_len(s: Seq<char>) -> nat
    decreases s.len(),
{
    if s.len() > 0 && !whitespace(s.first()) {
        1 + word_len(s.drop_first())
    } else {
        0
    }
}

/// The tokens of `s`: its maximal runs of characters that are not
/// whitespace, from left to right.
pub open spec fn tokens(s: Seq<char>) -> Seq<Seq<char>>
    decreases s.len(),
    via tokens_decreases
{
    if s.len() == 0 {
        Seq::empty()
    } else if whitespace(s.first()) {
        tokens(s.drop_first())
    } else {
        seq![s.take(word_len(s) as int)] + tokens(s.skip(word_len(s) as int))
    }
}

#[via_fn]
proof fn tokens_decreases(s: Seq<char>) {
    lemma_leading_word(s);
}

/// Trimming at the start leaves the end of `s` from some position on:
/// all before that position is whitespace, and the character at it is not.
pub proof fn lemma_trim_start_shape(s: Seq<char>)
    ensures
        trim_start(s).len() <= s.len(),
        trim_start(s) == s.skip(s.len() - trim_start(s).len()),
        blank(s.take(s.len() - trim_start(s).len())),
        trim_start(s).len() > 0 ==> !whitespace(trim_start(s).first()),
    decreases s.len(),
{
    if s.len() > 0 && whitespace(s.first()) {
        let d = s.drop_first();
        lemma_trim_start_shape(d);
        let u = trim_start(d);
        let k = d.len() - u.len();
        assert(s.skip(k + 1) =~= d.skip(k));
        assert forall|i: int| 0 <= i < k + 1 implies whitespace(#[trigger] s.take(k + 1)[i]) by {
            if i > 0 {
                assert(s.take(k + 1)[i] == d.take(k)[i - 1]);
            }
        }
    } else {
        assert(s.skip(0) =~= s);
    }
}

/// Trimming at the end leaves the start of `s` up to some position: all
/// from that position on is whitespace, and the character before it is not.
pub proof fn lemma_trim_end_shape(s: Seq<char>)
    ensures
        trim_end(s).len() <= s.len(),
        trim_end(s) == s.take(trim_end(s).len() as int),
        blank(s.skip(trim_end(s).len() as int)),
        trim_end(s).len() > 0 ==> !whitespace(trim_end(s).last()),
    decreases s.len(),
{
    if s.len() > 0 && whitespace(s.last()) {
        let d = s.drop_last();
        lemma_trim_end_shape(d);
        let k = trim_end(d).len() as int;
        assert(s.take(k) =~= d.take(k));
        assert forall|i: int| 0 <= i < s.len() - k implies whitespace(#[trigger] s.skip(k)[i]) by {
            if i < d.len() - k {
                assert(s.skip(k)[i] == d.skip(k)[i]);
            }
        }
    } else {
        assert(s.take(s.len() as int) =~= s);
    }
}

/// What trimming leaves is the text between two positions: all before the
/// first and all from the second on is whitespace, and what lies between
/// neither starts nor ends with whitespace.
pub proof fn lemma_trimmed_shape(s: Seq<char>)
    ensures
        ({
            let from = s.len() - trim_start(s).len();
            let to = from + trimmed(s).len();
            &&& 0 <= from <= to <= s.len()
            &&& trimmed(s) == s.subrange(from, to)
            &&& blank(s.take(from))
            &&& blank(s.skip(to))
            &&& tight(trimmed(s))
        }),
{
    let u = trim_start(s);
    let from = s.len() - u.len();
    let to = from + trimmed(s).len();
    lemma_trim_start_shape(s);
    lemma_trim_end_shape(u);
    assert(u.take(trimmed(s).len() as int) =~= s.subrange(from, to));
    assert(u.skip(trimmed(s).len() as int) =~= s.skip(to));
}

/// What trimming leaves neither starts nor ends with whitespace.
pub proof fn lemma_trimmed_is_tight(s: Seq<char>)
    ensures
        tight(trimmed(s)),
{
    let u = trim_start(s);
    lemma_trim_start_shape(s);
    lemma_trim_end_shape(u);
}

/// Trimming changes nothing where there is nothing to trim.
pub proof fn lemma_tight_is_trimmed(s: Seq<char>)
    requires
        tight(s),
    ensures
        trimmed(s) == s,
{
}

/// Trimming twice is trimming once.
pub proof fn lemma_trimmed_idempotent(s: Seq<char>)
    ensures
        trimmed(trimmed(s)) == trimmed(s),
{
    lemma_trimmed_is_tight(s);
    lemma_tight_is_trimmed(trimmed(s));
}

/// Trimming leaves nothing of `s` exactly where `s` is blank.
pub proof fn lemma_trimmed_of_blank(s: Seq<char>)
    ensures
        blank(s) <==> trimmed(s).len() == 0,
{
    let u = trim_start(s);
    let k = s.len() - u.len();
    lemma_trim_start_shape(s);
    lemma_trim_end_shape(u);
    if blank(s) {
        if u.len() > 0 {
            assert(u.first() == s[k]);
        }
    }
    if trimmed(s).len() == 0 {
        assert(u.skip(0) =~= u);
        if u.len() > 0 {
            assert(whitespace(u[0]));
        }
        assert(s.take(k) =~= s);
    }
}

/// The leading word of `s` lies within `s` and holds no whitespace, and
/// `s` ends with it or goes on with whitespace.
pub proof fn lemma_leading_word(s: Seq<char>)
    ensures
        forall|i: int| 0 <= i < word_len(s) ==> !whitespace(#[trigger] s[i]),
        word_len(s) <= s.len(),
        word_len(s) < s.len() ==> whitespace(s[word_len(s) as int]),
    decreases s.len(),
{
    if s.len() > 0 && !whitespace(s.first()) {
        let d = s.drop_first();
        lemma_leading_word(d);
        assert forall|i: int| 0 <= i < word_len(s) implies !whitespace(#[trigger] s[i]) by {
            if i > 0 {
                assert(s[i] == d[i - 1]);
            }
        }
        if word_len(s) < s.len() {
            assert(s[word_len(s) as int] == d[word_len(d) as int]);
        }
    }
}

/// The leading word of `s` ends at `k` where the first `k` characters are
/// not whitespace and `s` ends there or goes on with whitespace.
pub proof fn lemma_leading_word_ends(s: Seq<char>, k: int)
    requires
        0 <= k <= s.len(),
        forall|j: int| 0 <= j < k ==> !whitespace(#[trigger] s[j]),
        k == s.len() || whitespace(s[k]),
    ensures
        word_len(s) == k,
    decreases k,
{
    if k > 0 {
        lemma_leading_word_ends(s.drop_first(), k - 1);
    }
}

/// Every token is a word.
pub proof fn lemma_tokens_are_words(s: Seq<char>, k: int)
    requires
        0 <= k < tokens(s).len(),
    ensures
        word(tokens(s)[k]),
    decreases s.len(),
{
    if s.len() == 0 {
    } else if whitespace(s.first()) {
        lemma_tokens_are_words(s.drop_first(), k);
    } else {
        lemma_leading_word(s);
        if k > 0 {
            lemma_tokens_are_words(s.skip(word_len(s) as int), k - 1);
        }
    }
}

/// Whitespace at the end of `s` adds no token and changes none.
pub proof fn lemma_tokens_push_whitespace(s: Seq<char>, c: char)
    requires
        whitespace(c),
    ensures
        tokens(s.push(c)) == tokens(s),
    decreases s.len(),
{
    let t = s.push(c);
    if s.len() == 0 {
        assert(t.drop_first() =~= s);
    } else if whitespace(s.first()) {
        assert(t.drop_first() =~= s.drop_first().push(c));
        lemma_tokens_push_whitespace(s.drop_first(), c);
    } else {
        let w = word_len(s) as int;
        lemma_leading_word(s);
        lemma_leading_word_ends(t, w);
        assert(t.take(w) =~= s.take(w));
        assert(t.skip(w) =~= s.skip(w).push(c));
        lemma_tokens_push_whitespace(s.skip(w), c);
    }
}

/// The tokens of the trimmed text are those of the text.
pub proof fn lemma_tokens_of_trimmed(s: Seq<char>)
    ensures
        tokens(trimmed(s)) == tokens(s),
{
    lemma_tokens_of_trim_start(s);
    lemma_tokens_of_trim_end(trim_start(s));
}

proof fn lemma_tokens_of_trim_start(s: Seq<char>)
    ensures
        tokens(trim_start(s)) == tokens(s),
    decreases s.len(),
{
    if s.len() > 0 && whitespace(s.first()) {
        lemma_tokens_of_trim_start(s.drop_first());
    }
}

proof fn lemma_tokens_of_trim_end(s: Seq<char>)
    ensures
        tokens(trim_end(s)) == tokens(s),
    decreases s.len(),
{
    if s.len() > 0 && whitespace(s.last()) {
        lemma_tokens_of_trim_end(s.drop_last());
        assert(s.drop_last().push(s.last()) =~= s);
        lemma_tokens_push_whitespace(s.drop_last(), s.last());
    }
}

/// Tells whether `c` is whitespace.
pub fn is_whitespace(c: char) -> (b: bool)
    ensures
        b == whitespace(c),
{
    match c {
        '\u{9}'..='\u{d}' | ' ' | '\u{85}' | '\u{a0}' | '\u{1680}' => true,
        '\u{2000}'..='\u{200a}' | '\u{2028}' | '\u{2029}' => true,
        '\u{202f}' | '\u{205f}' | '\u{3000}' => true,
        _ => false,
    }
}

/// The characters of `text`, in order.
pub fn chars_of(text: &str) -> (chars: Vec<char>)
    ensures
        chars@ == text@,
{
    let mut chars: Vec<char> = Vec::new();
    for c in it: text.chars()
        invariant
            it.seq() == text@,
            chars@ == it.seq().take(it.index()),
    {
        chars.push(c);
    }
    chars
}

/// Where the trimmed text starts and ends within `chars`.
fn trim_span(chars: &Vec<char>) -> (span: (usize, usize))
    ensures
        span.0 <= span.1 <= chars@.len(),
        chars@.subrange(span.0 as int, span.1 as int) == trimmed(chars@),
{
    let n = chars.len();
    let mut start: usize = 0;
    assert(chars@.skip(0) =~= chars@);
    while start < n && is_whitespace(chars[start])
        invariant
            start <= n,
            n == chars@.len(),
            trim_start(chars@) == trim_start(chars@.skip(start as int)),
        decreases n - start,
    {
        assert(chars@.skip(start as int).drop_first() =~= chars@.skip(start + 1));
        start += 1;
    }
    let mut end = n;
    assert(chars@.skip(start as int) =~= chars@.subrange(start as int, end as int));
    while end > start && is_whitespace(chars[end - 1])
        invariant
            start <= end <= n,
            n == chars@.len(),
            trim_end(chars@.subrange(start as int, n as int)) == trim_end(
                chars@.subrange(start as int, end as int),
            ),
        decreases end,
    {
        assert(chars@.subrange(start as int, end as int).drop_last() =~= chars@.subrange(
            start as int,
            end - 1,
        ));
        end -= 1;
    }
    (start, end)
}

/// `text` without its leading and trailing whitespace.
pub fn trim<'a>(text: &'a str) -> (out: &'a str)
    ensures
        out@ == trimmed(text@),
{
    let chars = chars_of(text);
    let (start, end) = trim_span(&chars);
    text.substring_char(start, end)
}

/// The parts of `s` that `spans` cuts out, in order.
pub(crate) open spec fn slices(s: Seq<char>, spans: Seq<(usize, usize)>) -> Seq<Seq<char>> {
    Seq::new(spans.len(), |k: int| s.subrange(spans[k].0 as int, spans[k].1 as int))
}

/// Where each token of `chars` starts and ends.
pub(crate) fn token_spans(chars: &Vec<char>) -> (spans: Vec<(usize, usize)>)
    ensures
        forall|k: int|
            0 <= k < spans@.len() ==> (#[trigger] spans@[k]).0 <= spans@[k].1 <= chars@.len(),
        slices(chars@, spans@) == tokens(chars@),
{
    let n = chars.len();
    let mut spans: Vec<(usize, usize)> = Vec::new();
    let mut i: usize = 0;
    assert(chars@.skip(0) =~= chars@);
    assert(slices(chars@, spans@) + tokens(chars@) =~= tokens(chars@));
    while i < n
        invariant
            i <= n,
            n == chars@.len(),
            forall|k: int|
                0 <= k < spans@.len() ==> (#[trigger] spans@[k]).0 <= spans@[k].1 <= n,
            tokens(chars@) == slices(chars@, spans@) + tokens(chars@.skip(i as int)),
        decreases n - i,
    {
        let ghost rest = chars@.skip(i as int);
        if is_whitespace(chars[i]) {
            assert(rest.drop_first() =~= chars@.skip(i + 1));
            i += 1;
        } else {
            let start = i;
            i += 1;
            while i < n && !is_whitespace(chars[i])
                invariant
                    start < i <= n,
                    n == chars@.len(),
                    forall|j: int| start <= j < i ==> !whitespace(#[trigger] chars@[j]),
                decreases n - i,
            {
                i += 1;
            }
            proof {
                lemma_leading_word_ends(rest, i - start);
                assert(rest.take(i - start) =~= chars@.subrange(start as int, i as int));
                assert(rest.skip(i - start) =~= chars@.skip(i as int));
                assert(slices(chars@, spans@.push((start, i))) =~= slices(chars@, spans@)
                    + seq![chars@.subrange(start as int, i as int)]);
            }
            spans.push((start, i));
        }
    }
    assert(slices(chars@, spans@) + tokens(chars@.skip(n as int)) =~= slices(chars@, spans@));
    spans
}

/// The tokens of `text`, each a slice of it.
pub fn split_whitespace<'a>(text: &'a str) -> (parts: Vec<&'a str>)
    ensures
        parts@.len() == tokens(text@).len(),
        forall|k: int| 0 <= k < parts@.len() ==> (#[trigger] parts@[k])@ == tokens(text@)[k],
{
    let chars = chars_of(text);
    let spans = token_spans(&chars);
    let mut parts: Vec<&'a str> = Vec::new();
    let mut k: usize = 0;
    while k < spans.len()
        invariant
            k <= spans@.len(),
            chars@ == text@,
            forall|j: int|
                0 <= j < spans@.len() ==> (#[trigger] spans@[j]).0 <= spans@[j].1 <= chars@.len(),
            slices(chars@, spans@) == tokens(text@),
            parts@.len() == k,
            forall|j: int| 0 <= j < k ==> (#[trigger] parts@[j])@ == tokens(text@)[j],
        decreases spans@.len() - k,
    {
        let (start, end) = spans[k];
        assert(slices(chars@, spans@)[k as int] == chars@.subrange(start as int, end as int));
        parts.push(text.substring_char(start, end));
        k += 1;
    }
    parts
}

/// Tells whether `a` and `b` hold the same characters.
pub fn same(a: &str, b: &str) -> (equal: bool)
    ensures
        equal == (a@ == b@),
{
    let x = chars_of(a);
    let y = chars_of(b);
    if x.len() != y.len() {
        return false;
    }
    let mut i: usize = 0;
    while i < x.len()
        invariant
            i <= x@.len(),
            x@ == a@,
            y@ == b@,
            x@.len() == y@.len(),
            x@.take(i as int) == y@.take(i as int),
        decreases x@.len() - i,
    {
        if x[i] != y[i] {
            return false;
        }
        assert(x@.take(i + 1) =~= x@.take(i as int).push(x@[i as int]));
        assert(y@.take(i + 1) =~= y@.take(i as int).push(y@[i as int]));
        i += 1;
    }
    assert(x@ =~= x@.take(i as int));
    assert(y@ =~= y@.take(i as int));
    true
}

/// The lower-case form of `text` as `str::to_lowercase` of the standard
/// library gives it: the Unicode mapping, which no few lines can state.
pub uninterp spec fn lowercase(text: Seq<char>) -> Seq<char>;

/// Calls `str::to_lowercase`, which depends on the characters of `text`
/// alone. Nothing is proved of what comes back: the contract only gives it
/// its name, [`lowercase`].
#[verifier::external_body]
pub(crate) fn to_lowercase(text: &str) -> (lowered: String)
    ensures
        lowered@ == lowercase(text@),
{
    text.to_lowercase()
}

} // verus!
