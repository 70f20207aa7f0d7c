use vstd::prelude::*;

verus! {

/// Copies the characters of a string slice into a vector.
pub fn chars_of(s: &str) -> (r: Vec<char>)
    ensures
        r@ == s@,
{
    let mut r: Vec<char> = Vec::new();
    for c in it: s.chars()
        invariant
            r@ == it.seq().take(it.index()),
    {
        r.push(c);
    }
    r
}

/// What std's `str::to_lowercase` gives for a string: its lowercase form under
/// the Unicode case mapping.
pub uninterp spec fn lowercase(s: Seq<char>) -> Seq<char>;

/// std's `str::to_lowercase`. Its result depends on the characters of `s`
/// alone, and is named `lowercase`; no more of the Unicode mapping is stated.
#[verifier::external_body]
pub(crate) fn to_lowercase(s: &str) -> (r: String)
    ensures
        r@ == lowercase(s@),
{
    s.to_lowercase()
}

/// Appends one character to a string: std's `String::push`, whose documentation
/// says that it appends the given char to the end of the String.
#[verifier::external_body]
fn string_push(s: &mut String, c: char)
    ensures
        final(s)@ == old(s)@.push(c),
{
    s.push(c);
}

/// Builds a string holding exactly the given characters.
pub fn string_of(cs: &Vec<char>) -> (s: String)
    ensures
        s@ == cs@,
{
    let mut s = String::new();
    let mut i: usize = 0;
    while i < cs.len()
        invariant
            i <= cs.len(),
            s@ == cs@.take(i as int),
        decreases cs.len() - i,
    {
        string_push(&mut s, cs[i]);
        assert(cs@.take(i + 1) == cs@.take(i as int).push(cs@[i as int]));
        i = i + 1;
    }
    assert(cs@.take(cs.len() as int) == cs@);
    s
}

/// The characters that have the Unicode `White_Space` property, which is what
/// `char::is_whitespace` and `str::split_whitespace` go by.
pub open spec fn is_white_space(c: char) -> bool {
    ||| ('\u{9}' <= c && c <= '\u{d}')
    ||| c == ' '
    ||| c == '\u{85}'
    ||| c == '\u{a0}'
    ||| c == '\u{1680}'
    ||| ('\u{2000}' <= c && c <= '\u{200a}')
    ||| c == '\u{2028}'
    ||| c == '\u{2029}'
    ||| c == '\u{202f}'
    ||| c == '\u{205f}'
    ||| c == '\u{3000}'
}

/// Whether `c` is a Unicode white-space character.
pub fn is_whitespace(c: char) -> (r: bool)
    ensures
        r == is_white_space(c),
{
    ('\u{9}' <= c && c <= '\u{d}') || c == ' ' || c == '\u{85}' || c == '\u{a0}' || c
        == '\u{1680}' || ('\u{2000}' <= c && c <= '\u{200a}') || c == '\u{2028}' || c
        == '\u{2029}' || c == '\u{202f}' || c == '\u{205f}' || c == '\u{3000}'
}

/// The words of `s`: its maximal runs of non-white-space characters, in order.
/// Taken character by character: a white-space character adds nothing, a
/// non-white-space character extends the last word when the character before it
/// is not white space, and starts a new word otherwise.
pub open spec fn words(s: Seq<char>) -> Seq<Seq<char>>
    decreases s.len(),
{
    if s.len() == 0 {
        Seq::empty()
    } else {
        let w = words(s.drop_last());
        let c = s.last();
        if is_white_space(c) {
            w
        } else if s.len() > 1 && !is_white_space(s[s.len() - 2]) {
            w.drop_last().push(w.last().push(c))
        } else {
            w.push(seq![c])
        }
    }
}

/// Every word is non-empty and holds no white space.
pub proof fn lemma_words_are_nonblank(s: Seq<char>)
    ensures
        forall|i: int|
            0 <= i < words(s).len() ==> #[trigger] words(s)[i].len() > 0 && forall|j: int|
                0 <= j < words(s)[i].len() ==> !is_white_space(#[trigger] words(s)[i][j]),
    decreases s.len(),
{
    if s.len() > 0 {
        lemma_words_are_nonblank(s.drop_last());
        let w = words(s.drop_last());
        let c = s.last();
        if !is_white_space(c) && s.len() > 1 && !is_white_space(s[s.len() - 2]) {
            lemma_last_word_present(s.drop_last());
            let lw = w.last().push(c);
            assert forall|j: int| 0 <= j < lw.len() implies !is_white_space(#[trigger] lw[j]) by {
                if j < w.last().len() {
                    assert(lw[j] == w.last()[j]);
                }
            }
        }
    }
}

proof fn lemma_last_word_present(s: Seq<char>)
    requires
        s.len() > 0,
        !is_white_space(s.last()),
    ensures
        words(s).len() > 0,
    decreases s.len(),
{
    if s.len() > 1 && !is_white_space(s[s.len() - 2]) {
        assert(s.drop_last().last() == s[s.len() - 2]);
        lemma_last_word_present(s.drop_last());
    }
}

/// A white-space character splits the words: the words of `a`, a white-space
/// character and `b` are the words of `a` followed by the words of `b`.
pub proof fn lemma_words_split(a: Seq<char>, c: char, b: Seq<char>)
    requires
        is_white_space(c),
    ensures
        words(a + seq![c] + b) == words(a) + words(b),
    decreases b.len(),
{
    let x = a + seq![c] + b;
    if b.len() == 0 {
        assert(x.drop_last() == a);
        assert(words(b) == Seq::<Seq<char>>::empty());
        assert(words(a) + words(b) == words(a));
    } else {
        lemma_words_split(a, c, b.drop_last());
        assert(x.drop_last() == a + seq![c] + b.drop_last());
        let wa = words(a);
        let wb = words(b.drop_last());
        let last = b.last();
        assert(x.last() == last);
        if is_white_space(last) {
        } else if b.len() >= 2 && !is_white_space(b[b.len() - 2]) {
            assert(x[x.len() - 2] == b[b.len() - 2]);
            assert(b.drop_last().last() == b[b.len() - 2]);
            lemma_last_word_present(b.drop_last());
            assert((wa + wb).drop_last() == wa + wb.drop_last());
            assert((wa + wb).last() == wb.last());
            assert(words(b) == wb.drop_last().push(wb.last().push(last)));
            assert(wa + wb.drop_last().push(wb.last().push(last)) == (wa + wb.drop_last()).push(
                wb.last().push(last),
            ));
        } else {
            if b.len() == 1 {
                assert(x[x.len() - 2] == c);
                assert(b.drop_last().len() == 0);
            } else {
                assert(x[x.len() - 2] == b[b.len() - 2]);
            }
            assert(words(b) == wb.push(seq![last]));
            assert(wa + wb.push(seq![last]) == (wa + wb).push(seq![last]));
        }
    }
}

/// `p` occurs in `t` as a contiguous piece.
pub open spec fn is_substring(p: Seq<char>, t: Seq<char>) -> bool {
    exists|k: int| 0 <= k && k + p.len() <= t.len() && #[trigger] t.subrange(k, k + p.len()) == p
}

/// Splits `s` into its white-space separated words.
pub fn split_whitespace(s: &Vec<char>) -> (r: Vec<Vec<char>>)
    ensures
        r@.len() == words(s@).len(),
        forall|i: int| 0 <= i < r@.len() ==> #[trigger] r@[i]@ == words(s@)[i],
{
    let mut done: Vec<Vec<char>> = Vec::new();
    let mut cur: Vec<char> = Vec::new();
    let mut i: usize = 0;
    while i < s.len()
        invariant
            i <= s.len(),
            cur@.len() > 0 <==> (i > 0 && !is_white_space(s@[i - 1])),
            ({
                let w = words(s@.take(i as int));
                if cur@.len() > 0 {
                    &&& w.len() == done@.len() + 1
                    &&& w.last() == cur@
                    &&& forall|j: int| 0 <= j < done@.len() ==> #[trigger] done@[j]@ == w[j]
                } else {
                    &&& w.len() == done@.len()
                    &&& forall|j: int| 0 <= j < done@.len() ==> #[trigger] done@[j]@ == w[j]
                }
            }),
        decreases s.len() - i,
    {
        let c = s[i];
        assert(s@.take(i + 1).drop_last() == s@.take(i as int));
        if is_whitespace(c) {
            if cur.len() > 0 {
                let finished = cur;
                cur = Vec::new();
                done.push(finished);
            }
        } else {
            cur.push(c);
        }
        i = i + 1;
    }
    assert(s@.take(s.len() as int) == s@);
    if cur.len() > 0 {
        done.push(cur);
    }
    done
}

/// Whether `p` occurs in `t` as a contiguous piece (`str::contains` on a pattern).
pub fn contains_substring(t: &Vec<char>, p: &Vec<char>) -> (r: bool)
    ensures
        r == is_substring(p@, t@),
{
    if p.len() > t.len() {
        return false;
    }
    let last = t.len() - p.len();
    let mut k: usize = 0;
    while k <= last
        invariant
            last == t.len() - p.len(),
            p.len() <= t.len(),
            forall|j: int| 0 <= j < k ==> #[trigger] t@.subrange(j, j + p.len()) != p@,
        ensures
            forall|j: int| 0 <= j <= last ==> #[trigger] t@.subrange(j, j + p.len()) != p@,
        decreases last + 1 - k,
    {
        let mut m: usize = 0;
        let mut same = true;
        while m < p.len()
            invariant
                k <= last,
                last == t.len() - p.len(),
                m <= p.len(),
                same ==> forall|q: int| 0 <= q < m ==> t@[k + q] == p@[q],
                !same ==> t@.subrange(k as int, k + p.len()) != p@,
            decreases p.len() - m,
        {
            if t[k + m] != p[m] {
                assert(t@.subrange(k as int, k + p.len())[m as int] != p@[m as int]);
                same = false;
            }
            m = m + 1;
        }
        if same {
            assert(t@.subrange(k as int, k + p.len()) == p@);
            return true;
        }
        if k == last {
            break;
        }
        k = k + 1;
    }
    assert(forall|j: int| 0 <= j && j + p@.len() <= t@.len() ==> #[trigger] t@.subrange(j, j + p.len()) != p@);
    false
}

} // verus!
