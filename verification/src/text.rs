//! Cleaning of transcripts: splitting on Unicode whitespace, recognising
//! filler tokens such as "嗯" or "er", and joining what is left with single spaces.

use vstd::prelude::*;

verus! {

/// `String::push` appends one character to the end of the string.
pub assume_specification[ String::push ](s: &mut String, ch: char)
    ensures
        final(s)@ == old(s)@.push(ch),
;

/// The characters with the Unicode `White_Space` property, which is what
/// `char::is_whitespace` and `str::split_whitespace` go by.
pub open spec fn is_unicode_whitespace(c: char) -> bool {
    let x = c as u32;
    ||| 0x09 <= x <= 0x0d
    ||| x == 0x20
    ||| x == 0x85
    ||| x == 0xa0
    ||| x == 0x1680
    ||| 0x2000 <= x <= 0x200a
    ||| x == 0x2028
    ||| x == 0x2029
    ||| x == 0x202f
    ||| x == 0x205f
    ||| x == 0x3000
}

/// Whether `c` is Unicode whitespace.
pub fn is_whitespace(c: char) -> (r: bool)
    ensures
        r == is_unicode_whitespace(c),
        is_graphic_text_char(c) ==> !r,
{
    proof {
        lemma_graphic_chars_are_not_whitespace(c);
    }
    let x = c as u32;
    (0x09 <= x && x <= 0x0d) || x == 0x20 || x == 0x85 || x == 0xa0 || x == 0x1680 || (0x2000
        <= x && x <= 0x200a) || x == 0x2028 || x == 0x2029 || x == 0x202f || x == 0x205f || x
        == 0x3000
}

/// ASCII punctuation as `char::is_ascii_punctuation` defines it.
pub open spec fn is_ascii_punct(c: char) -> bool {
    let x = c as u32;
    ||| 0x21 <= x <= 0x2f
    ||| 0x3a <= x <= 0x40
    ||| 0x5b <= x <= 0x60
    ||| 0x7b <= x <= 0x7e
}

/// The characters trimmed from both ends of a token before it is compared with
/// the filler tokens: ASCII punctuation and the full-width marks
/// '，' '。' '！' '？' '；' '：'.
pub open spec fn is_trim_char(c: char) -> bool {
    let x = c as u32;
    ||| is_ascii_punct(c)
    ||| x == 0xff0c
    ||| x == 0x3002
    ||| x == 0xff01
    ||| x == 0xff1f
    ||| x == 0xff1b
    ||| x == 0xff1a
}

/// Whether `c` is trimmed from the ends of a token.
pub fn is_trim_char_exec(c: char) -> (r: bool)
    ensures
        r == is_trim_char(c),
{
    let x = c as u32;
    (0x21 <= x && x <= 0x2f) || (0x3a <= x && x <= 0x40) || (0x5b <= x && x <= 0x60) || (0x7b
        <= x && x <= 0x7e) || x == 0xff0c || x == 0x3002 || x == 0xff01 || x == 0xff1f || x
        == 0xff1b || x == 0xff1a
}

/// The code of `c` after ASCII lower-casing ('A'..='Z' become 'a'..='z').
pub open spec fn ascii_lower_code(c: char) -> u32 {
    let x = c as u32;
    if 0x41 <= x <= 0x5a {
        (x + 0x20) as u32
    } else {
        x
    }
}

/// `str::eq_ignore_ascii_case` on character sequences.
pub open spec fn eq_ignore_ascii_case(a: Seq<char>, b: Seq<char>) -> bool {
    &&& a.len() == b.len()
    &&& forall|i: int| 0 <= i < a.len() ==> ascii_lower_code(#[trigger] a[i]) == ascii_lower_code(b[i])
}

/// `s` without its leading trim characters.
pub open spec fn trim_front(s: Seq<char>) -> Seq<char>
    decreases s.len(),
{
    if s.len() > 0 && is_trim_char(s[0]) {
        trim_front(s.drop_first())
    } else {
        s
    }
}

/// `s` without its trailing trim characters.
pub open spec fn trim_back(s: Seq<char>) -> Seq<char>
    decreases s.len(),
{
    if s.len() > 0 && is_trim_char(s.last()) {
        trim_back(s.drop_last())
    } else {
        s
    }
}

/// `s` with trim characters removed from both ends (`str::trim_matches`).
pub open spec fn trim_token(s: Seq<char>) -> Seq<char> {
    trim_back(trim_front(s))
}

/// The filler tokens: "n", "r", "en", "er", "嗯", "呃", "额", "啊".
pub open spec fn filler_tokens() -> Seq<Seq<char>> {
    seq![
        seq!['n'],
        seq!['r'],
        seq!['e', 'n'],
        seq!['e', 'r'],
        seq!['\u{55ef}'],
        seq!['\u{5443}'],
        seq!['\u{989d}'],
        seq!['\u{554a}'],
    ]
}

/// A token is a filler when, trimmed of punctuation, it is not empty and equals
/// one of the filler tokens up to ASCII case.
pub open spec fn is_filler(token: Seq<char>) -> bool {
    let t = trim_token(token);
    &&& t.len() > 0
    &&& exists|k: int| 0 <= k < filler_tokens().len() && eq_ignore_ascii_case(t, #[trigger] filler_tokens()[k])
}

/// The whitespace-separated words of `s`, in order (`str::split_whitespace`).
pub open spec fn words(s: Seq<char>) -> Seq<Seq<char>>
    decreases s.len(),
{
    if s.len() == 0 {
        seq![]
    } else {
        let prev = words(s.drop_last());
        let c = s.last();
        if is_unicode_whitespace(c) {
            prev
        } else if s.len() > 1 && !is_unicode_whitespace(s[s.len() - 2]) {
            prev.drop_last().push(prev.last().push(c))
        } else {
            prev.push(seq![c])
        }
    }
}

/// The words of `ws` that are not filler tokens, in order.
pub open spec fn kept_words(ws: Seq<Seq<char>>) -> Seq<Seq<char>>
    decreases ws.len(),
{
    if ws.len() == 0 {
        seq![]
    } else {
        let k = kept_words(ws.drop_last());
        if is_filler(ws.last()) {
            k
        } else {
            k.push(ws.last())
        }
    }
}

/// The words of `ws` joined by single spaces.
pub open spec fn join_words(ws: Seq<Seq<char>>) -> Seq<char>
    decreases ws.len(),
{
    if ws.len() == 0 {
        seq![]
    } else if ws.len() == 1 {
        ws[0]
    } else {
        join_words(ws.drop_last()) + seq![' '] + ws.last()
    }
}

/// What a cleaned transcript is: its non-filler words joined by single spaces.
pub open spec fn normalized(s: Seq<char>) -> Seq<char> {
    join_words(kept_words(words(s)))
}

/// The characters of `s`, in order.
pub fn chars_of(s: &str) -> (v: Vec<char>)
    ensures
        v@ == s@,
{
    let mut v: Vec<char> = Vec::new();
    for c in it: s.chars()
        invariant
            v@ == it.seq().take(it.index()),
            it.seq() == s@,
    {
        v.push(c);
    }
    v
}

/// The `k`-th filler token.
fn filler_token(k: usize) -> (t: Vec<char>)
    requires
        k < 8,
    ensures
        t@ == filler_tokens()[k as int],
{
    if k == 0 {
        vec!['n']
    } else if k == 1 {
        vec!['r']
    } else if k == 2 {
        vec!['e', 'n']
    } else if k == 3 {
        vec!['e', 'r']
    } else if k == 4 {
        vec!['\u{55ef}']
    } else if k == 5 {
        vec!['\u{5443}']
    } else if k == 6 {
        vec!['\u{989d}']
    } else {
        vec!['\u{554a}']
    }
}

pub fn lower_code(c: char) -> (r: u32)
    ensures
        r == ascii_lower_code(c),
{
    let x = c as u32;
    if 0x41 <= x && x <= 0x5a {
        x + 0x20
    } else {
        x
    }
}

/// Whether `v[lo..hi]` equals `t` up to ASCII case.
fn range_eq_ignore_ascii_case(v: &Vec<char>, lo: usize, hi: usize, t: &Vec<char>) -> (r: bool)
    requires
        lo <= hi <= v.len(),
    ensures
        r == eq_ignore_ascii_case(v@.subrange(lo as int, hi as int), t@),
{
    let ghost sub = v@.subrange(lo as int, hi as int);
    if hi - lo != t.len() {
        return false;
    }
    let mut i: usize = 0;
    while i < t.len()
        invariant
            lo <= hi <= v.len(),
            hi - lo == t.len(),
            sub == v@.subrange(lo as int, hi as int),
            i <= t.len(),
            forall|j: int| 0 <= j < i ==> ascii_lower_code(#[trigger] sub[j]) == ascii_lower_code(t@[j]),
        decreases t.len() - i,
    {
        if lower_code(v[lo + i]) != lower_code(t[i]) {
            assert(sub[i as int] == v@[lo + i]);
            return false;
        }
        i += 1;
    }
    true
}

/// Whether a word of a transcript is a filler token ("嗯", "er", "N," and the
/// like): trimmed of ASCII punctuation and full-width marks, it is not empty and
/// equals one of the filler tokens up to ASCII case.
pub fn is_filler_token(token: &str) -> (r: bool)
    ensures
        r == is_filler(token@),
{
    let v = chars_of(token);
    let n = v.len();
    let mut start: usize = 0;
    assert(v@.subrange(0, n as int) =~= v@);
    while start < n && is_trim_char_exec(v[start])
        invariant
            n == v.len(),
            start <= n,
            trim_front(v@) == trim_front(v@.subrange(start as int, n as int)),
        decreases n - start,
    {
        let ghost sub = v@.subrange(start as int, n as int);
        assert(sub.drop_first() =~= v@.subrange(start + 1, n as int));
        start += 1;
    }
    assert(trim_front(v@) == v@.subrange(start as int, n as int));
    let mut end: usize = n;
    while end > start && is_trim_char_exec(v[end - 1])
        invariant
            n == v.len(),
            start <= end <= n,
            trim_token(v@) == trim_back(v@.subrange(start as int, end as int)),
        decreases end - start,
    {
        let ghost sub = v@.subrange(start as int, end as int);
        assert(sub.drop_last() =~= v@.subrange(start as int, end - 1));
        end -= 1;
    }
    let ghost t = v@.subrange(start as int, end as int);
    assert(trim_token(v@) == t);
    if start == end {
        return false;
    }
    let mut k: usize = 0;
    assert(filler_tokens().len() == 8);
    while k < 8
        invariant
            start < end <= n,
            n == v.len(),
            t == v@.subrange(start as int, end as int),
            trim_token(v@) == t,
            v@ == token@,
            k <= 8,
            forall|j: int| 0 <= j < k ==> !eq_ignore_ascii_case(t, #[trigger] filler_tokens()[j]),
        decreases 8 - k,
    {
        let f = filler_token(k);
        if range_eq_ignore_ascii_case(&v, start, end, &f) {
            assert(eq_ignore_ascii_case(t, filler_tokens()[k as int]));
            return true;
        }
        k += 1;
    }
    false
}

/// Removes filler tokens from a transcript and joins the remaining words with
/// single spaces, so that "嗯 这个 r 可以" becomes "这个 可以".
pub fn normalize_transcript_text(text: &str) -> (r: String)
    ensures
        r@ == normalized(text@),
{
    let v = chars_of(text);
    let n = v.len();
    let mut out = String::new();
    let mut any_kept = false;
    let mut cur = String::new();
    let mut in_word = false;
    let ghost mut done: Seq<Seq<char>> = seq![];
    let mut i: usize = 0;
    while i < n
        invariant
            n == v.len(),
            v@ == text@,
            i <= n,
            words(v@.take(i as int)) == (if cur@.len() > 0 { done.push(cur@) } else { done }),
            cur@.len() > 0 <==> (i > 0 && !is_unicode_whitespace(v@[i - 1])),
            out@ == join_words(kept_words(done)),
            any_kept == (kept_words(done).len() > 0),
            in_word == (cur@.len() > 0),
        decreases n - i,
    {
        let c = v[i];
        let ghost prefix = v@.take(i as int);
        let ghost next = v@.take(i + 1);
        assert(next.drop_last() =~= prefix);
        assert(next.last() == c);
        assert(i > 0 ==> next[next.len() - 2] == v@[i - 1]);
        if is_whitespace(c) {
            if in_word {
                proof {
                    assert(done.push(cur@).drop_last() =~= done);
                }
                if !is_filler_token(cur.as_str()) {
                    let ghost k = kept_words(done);
                    assert(k.push(cur@).drop_last() =~= k);
                    if any_kept {
                        out.push(' ');
                    }
                    out.append(cur.as_str());
                    any_kept = true;
                }
                proof {
                    done = done.push(cur@);
                }
                cur = String::new();
                in_word = false;
            }
        } else {
            let ghost old_cur = cur@;
            cur.push(c);
            in_word = true;
            proof {
                assert(done.push(old_cur).drop_last() =~= done);
                assert(old_cur.len() == 0 ==> cur@ =~= seq![c]);
            }
        }
        i += 1;
    }
    assert(v@.take(n as int) =~= v@);
    if in_word {
        proof {
            assert(done.push(cur@).drop_last() =~= done);
        }
        if !is_filler_token(cur.as_str()) {
            let ghost k = kept_words(done);
            assert(k.push(cur@).drop_last() =~= k);
            if any_kept {
                out.push(' ');
            }
            out.append(cur.as_str());
        }
        proof {
            done = done.push(cur@);
        }
    }
    out
}

/// Every word is non-empty and has no whitespace.
pub open spec fn proper_words(ws: Seq<Seq<char>>) -> bool {
    forall|i: int|
        0 <= i < ws.len() ==> (#[trigger] ws[i]).len() > 0 && forall|j: int|
            0 <= j < ws[i].len() ==> !is_unicode_whitespace(#[trigger] ws[i][j])
}

proof fn lemma_words_nonempty_after_letter(s: Seq<char>)
    requires
        s.len() > 0,
        !is_unicode_whitespace(s.last()),
    ensures
        words(s).len() > 0,
{
}

proof fn lemma_words_proper(s: Seq<char>)
    ensures
        proper_words(words(s)),
    decreases s.len(),
{
    if s.len() > 0 {
        let prev = words(s.drop_last());
        lemma_words_proper(s.drop_last());
        let c = s.last();
        if is_unicode_whitespace(c) {
        } else if s.len() > 1 && !is_unicode_whitespace(s[s.len() - 2]) {
            lemma_words_nonempty_after_letter(s.drop_last());
            let w = prev.last().push(c);
            let r = prev.drop_last().push(w);
            assert forall|i: int| 0 <= i < r.len() implies (#[trigger] r[i]).len() > 0 && forall|
                j: int,
            | 0 <= j < r[i].len() ==> !is_unicode_whitespace(#[trigger] r[i][j]) by {
                if i < r.len() - 1 {
                    assert(r[i] == prev[i]);
                } else {
                    assert(r[i] == w);
                    assert forall|j: int| 0 <= j < w.len() implies !is_unicode_whitespace(
                        #[trigger] w[j],
                    ) by {
                        if j < w.len() - 1 {
                            assert(w[j] == prev[prev.len() - 1][j]);
                        }
                    }
                }
            }
        } else {
            let r = prev.push(seq![c]);
            assert forall|i: int| 0 <= i < r.len() implies (#[trigger] r[i]).len() > 0 && forall|
                j: int,
            | 0 <= j < r[i].len() ==> !is_unicode_whitespace(#[trigger] r[i][j]) by {
                if i < r.len() - 1 {
                    assert(r[i] == prev[i]);
                }
            }
        }
    }
}

/// Appending a whole word after a word boundary appends it to the words.
proof fn lemma_words_append_word(a: Seq<char>, w: Seq<char>)
    requires
        a.len() == 0 || is_unicode_whitespace(a.last()),
        w.len() > 0,
        forall|j: int| 0 <= j < w.len() ==> !is_unicode_whitespace(#[trigger] w[j]),
    ensures
        words(a + w) == words(a).push(w),
    decreases w.len(),
{
    let s = a + w;
    assert(s.last() == w.last());
    if w.len() == 1 {
        assert(s.drop_last() =~= a);
        assert(w =~= seq![w[0]]);
        if s.len() > 1 {
            assert(s[s.len() - 2] == a.last());
        }
    } else {
        let v = w.drop_last();
        assert(s.drop_last() =~= a + v);
        lemma_words_append_word(a, v);
        assert(s[s.len() - 2] == w[w.len() - 2]);
        let prev = words(a).push(v);
        assert(prev.drop_last() =~= words(a));
        assert(v.push(w.last()) =~= w);
    }
}

proof fn lemma_words_of_join(ws: Seq<Seq<char>>)
    requires
        proper_words(ws),
    ensures
        words(join_words(ws)) == ws,
    decreases ws.len(),
{
    if ws.len() == 0 {
    } else if ws.len() == 1 {
        assert(ws[0].len() > 0);
        lemma_words_append_word(seq![], ws[0]);
        assert(seq![] + ws[0] =~= ws[0]);
        assert(Seq::<Seq<char>>::empty().push(ws[0]) =~= ws);
    } else {
        let init = ws.drop_last();
        assert(proper_words(init)) by {
            assert forall|i: int| 0 <= i < init.len() implies (#[trigger] init[i]).len() > 0
                && forall|j: int| 0 <= j < init[i].len() ==> !is_unicode_whitespace(
                #[trigger] init[i][j],
            ) by {
                assert(init[i] == ws[i]);
            }
        }
        lemma_words_of_join(init);
        let a = join_words(init);
        let a1 = a + seq![' '];
        assert(a1.drop_last() =~= a);
        assert(is_unicode_whitespace(a1.last()));
        assert(words(a1) == words(a));
        assert(ws.last().len() > 0);
        assert(ws.last() == ws[ws.len() - 1]);
        lemma_words_append_word(a1, ws.last());
        assert(init.push(ws.last()) =~= ws);
    }
}

proof fn lemma_kept_words_filter(ws: Seq<Seq<char>>)
    ensures
        forall|i: int| 0 <= i < kept_words(ws).len() ==> !is_filler(#[trigger] kept_words(ws)[i]),
        forall|i: int|
            0 <= i < kept_words(ws).len() ==> exists|k: int|
                0 <= k < ws.len() && ws[k] == #[trigger] kept_words(ws)[i],
    decreases ws.len(),
{
    if ws.len() > 0 {
        let init = ws.drop_last();
        lemma_kept_words_filter(init);
        let k = kept_words(init);
        assert forall|i: int| 0 <= i < kept_words(ws).len() implies exists|m: int|
            0 <= m < ws.len() && ws[m] == #[trigger] kept_words(ws)[i] by {
            if i < k.len() {
                assert(kept_words(ws)[i] == k[i]);
                let m = choose|m: int| 0 <= m < init.len() && init[m] == k[i];
                assert(ws[m] == init[m]);
            } else {
                assert(ws[ws.len() - 1] == kept_words(ws)[i]);
            }
        }
    }
}

proof fn lemma_kept_words_proper(ws: Seq<Seq<char>>)
    requires
        proper_words(ws),
    ensures
        proper_words(kept_words(ws)),
{
    lemma_kept_words_filter(ws);
    let k = kept_words(ws);
    assert forall|i: int| 0 <= i < k.len() implies (#[trigger] k[i]).len() > 0 && forall|j: int|
        0 <= j < k[i].len() ==> !is_unicode_whitespace(#[trigger] k[i][j]) by {
        let m = choose|m: int| 0 <= m < ws.len() && ws[m] == k[i];
        assert(ws[m].len() > 0);
    }
}

proof fn lemma_kept_words_of_kept(ws: Seq<Seq<char>>)
    requires
        forall|i: int| 0 <= i < ws.len() ==> !is_filler(#[trigger] ws[i]),
    ensures
        kept_words(ws) == ws,
    decreases ws.len(),
{
    if ws.len() > 0 {
        let init = ws.drop_last();
        assert forall|i: int| 0 <= i < init.len() implies !is_filler(#[trigger] init[i]) by {
            assert(init[i] == ws[i]);
        }
        lemma_kept_words_of_kept(init);
        assert(!is_filler(ws[ws.len() - 1]));
        assert(init.push(ws.last()) =~= ws);
    }
}

/// The words of a cleaned transcript are exactly the words of the raw one
/// that are not filler tokens, in their order.
pub proof fn lemma_normalized_words(s: Seq<char>)
    ensures
        words(normalized(s)) == kept_words(words(s)),
{
    lemma_words_proper(s);
    lemma_kept_words_proper(words(s));
    lemma_words_of_join(kept_words(words(s)));
}

/// A cleaned transcript holds no filler token.
pub proof fn lemma_normalized_has_no_fillers(s: Seq<char>)
    ensures
        forall|i: int| 0 <= i < words(normalized(s)).len() ==> !is_filler(#[trigger] words(normalized(s))[i]),
{
    lemma_normalized_words(s);
    lemma_kept_words_filter(words(s));
}

/// Cleaning a cleaned transcript changes nothing.
pub proof fn lemma_normalize_idempotent(s: Seq<char>)
    ensures
        normalized(normalized(s)) == normalized(s),
{
    lemma_normalized_words(s);
    lemma_kept_words_filter(words(s));
    lemma_kept_words_of_kept(kept_words(words(s)));
}

/// Two cleaned pieces joined by one space, leaving out a piece that is empty.
pub open spec fn join_two(p: Seq<char>, q: Seq<char>) -> Seq<char> {
    if p.len() == 0 {
        q
    } else if q.len() == 0 {
        p
    } else {
        p + seq![' '] + q
    }
}

proof fn lemma_words_concat(a: Seq<char>, c: char, b: Seq<char>)
    requires
        is_unicode_whitespace(c),
    ensures
        words(a + seq![c] + b) == words(a) + words(b),
    decreases b.len(),
{
    let s = a + seq![c] + b;
    if b.len() == 0 {
        assert(s.drop_last() =~= a);
        assert(words(a) + words(b) =~= words(a));
    } else {
        let b1 = b.drop_last();
        let d = b.last();
        assert(s.drop_last() =~= a + seq![c] + b1);
        assert(s.last() == d);
        lemma_words_concat(a, c, b1);
        let wa = words(a);
        let wb1 = words(b1);
        let pr = wa + wb1;
        if is_unicode_whitespace(d) {
        } else {
            if b1.len() > 0 {
                assert(s[s.len() - 2] == b1.last());
                assert(b[b.len() - 2] == b1.last());
            } else {
                assert(s[s.len() - 2] == c);
            }
            if b1.len() > 0 && !is_unicode_whitespace(b1.last()) {
                lemma_words_nonempty_after_letter(b1);
                assert(pr.drop_last() =~= wa + wb1.drop_last());
                assert(pr.last() == wb1.last());
                assert(pr.drop_last().push(pr.last().push(d)) =~= wa + wb1.drop_last().push(
                    wb1.last().push(d),
                ));
            } else {
                assert(pr.push(seq![d]) =~= wa + wb1.push(seq![d]));
            }
        }
    }
}

proof fn lemma_kept_words_concat(x: Seq<Seq<char>>, y: Seq<Seq<char>>)
    ensures
        kept_words(x + y) == kept_words(x) + kept_words(y),
    decreases y.len(),
{
    if y.len() == 0 {
        assert(x + y =~= x);
        assert(kept_words(x) + kept_words(y) =~= kept_words(x));
    } else {
        let y1 = y.drop_last();
        assert((x + y).drop_last() =~= x + y1);
        assert((x + y).last() == y.last());
        lemma_kept_words_concat(x, y1);
        if is_filler(y.last()) {
        } else {
            assert((kept_words(x) + kept_words(y1)).push(y.last()) =~= kept_words(x) + kept_words(
                y1,
            ).push(y.last()));
        }
    }
}

proof fn lemma_join_nonempty(x: Seq<Seq<char>>)
    requires
        proper_words(x),
    ensures
        x.len() > 0 ==> join_words(x).len() > 0,
        x.len() == 0 ==> join_words(x).len() == 0,
{
    if x.len() > 0 {
        assert(x[x.len() - 1].len() > 0);
    }
}

proof fn lemma_join_concat(x: Seq<Seq<char>>, y: Seq<Seq<char>>)
    requires
        proper_words(x),
        proper_words(y),
    ensures
        join_words(x + y) == join_two(join_words(x), join_words(y)),
    decreases y.len(),
{
    lemma_join_nonempty(x);
    lemma_join_nonempty(y);
    if y.len() == 0 {
        assert(x + y =~= x);
    } else if x.len() == 0 {
        assert(x + y =~= y);
    } else {
        let y1 = y.drop_last();
        assert(proper_words(y1)) by {
            assert forall|i: int| 0 <= i < y1.len() implies (#[trigger] y1[i]).len() > 0
                && forall|j: int| 0 <= j < y1[i].len() ==> !is_unicode_whitespace(
                #[trigger] y1[i][j],
            ) by {
                assert(y1[i] == y[i]);
            }
        }
        assert((x + y).drop_last() =~= x + y1);
        assert((x + y).last() == y.last());
        lemma_join_concat(x, y1);
        lemma_join_nonempty(y1);
        if y1.len() == 0 {
            assert(y.last() == y[0]);
        } else {
            assert(join_words(x) + seq![' '] + join_words(y1) + seq![' '] + y.last() =~= join_words(
                x,
            ) + seq![' '] + (join_words(y1) + seq![' '] + y.last()));
        }
    }
}

/// Cleaning two pieces of a transcript separated by whitespace gives the
/// cleaned pieces joined by one space, an empty piece being left out.
pub proof fn lemma_normalize_concat(a: Seq<char>, c: char, b: Seq<char>)
    requires
        is_unicode_whitespace(c),
    ensures
        normalized(a + seq![c] + b) == join_two(normalized(a), normalized(b)),
{
    lemma_words_concat(a, c, b);
    lemma_kept_words_concat(words(a), words(b));
    lemma_words_proper(a);
    lemma_words_proper(b);
    lemma_kept_words_proper(words(a));
    lemma_kept_words_proper(words(b));
    lemma_join_concat(kept_words(words(a)), kept_words(words(b)));
}

/// Every character of `s` is trimmed from the ends of a token.
pub open spec fn all_trim(s: Seq<char>) -> bool {
    forall|i: int| 0 <= i < s.len() ==> is_trim_char(#[trigger] s[i])
}

proof fn lemma_trim_front_skips(p: Seq<char>, x: Seq<char>)
    requires
        all_trim(p),
    ensures
        trim_front(p + x) == trim_front(x),
    decreases p.len(),
{
    if p.len() == 0 {
        assert(p + x =~= x);
    } else {
        assert((p + x)[0] == p[0]);
        assert((p + x).drop_first() =~= p.drop_first() + x);
        assert(all_trim(p.drop_first())) by {
            assert forall|i: int| 0 <= i < p.drop_first().len() implies is_trim_char(
                #[trigger] p.drop_first()[i],
            ) by {
                assert(p.drop_first()[i] == p[i + 1]);
            }
        }
        lemma_trim_front_skips(p.drop_first(), x);
    }
}

proof fn lemma_trim_back_skips(x: Seq<char>, q: Seq<char>)
    requires
        all_trim(q),
    ensures
        trim_back(x + q) == trim_back(x),
    decreases q.len(),
{
    if q.len() == 0 {
        assert(x + q =~= x);
    } else {
        assert((x + q).last() == q.last());
        assert(is_trim_char(q[q.len() - 1]));
        assert((x + q).drop_last() =~= x + q.drop_last());
        assert(all_trim(q.drop_last())) by {
            assert forall|i: int| 0 <= i < q.drop_last().len() implies is_trim_char(
                #[trigger] q.drop_last()[i],
            ) by {
                assert(q.drop_last()[i] == q[i]);
            }
        }
        lemma_trim_back_skips(x, q.drop_last());
    }
}

proof fn lemma_trim_front_keeps_tail(t: Seq<char>, q: Seq<char>)
    requires
        !all_trim(t),
    ensures
        trim_front(t + q) == trim_front(t) + q,
    decreases t.len(),
{
    assert((t + q)[0] == t[0]);
    if is_trim_char(t[0]) {
        let t1 = t.drop_first();
        assert(!all_trim(t1)) by {
            let i = choose|i: int| 0 <= i < t.len() && !is_trim_char(#[trigger] t[i]);
            assert(i > 0);
            assert(t1[i - 1] == t[i]);
        }
        assert((t + q).drop_first() =~= t1 + q);
        lemma_trim_front_keeps_tail(t1, q);
    }
}

/// Trim characters around a token do not change whether it is a filler.
pub proof fn lemma_filler_ignores_surrounding_marks(p: Seq<char>, t: Seq<char>, q: Seq<char>)
    requires
        all_trim(p),
        all_trim(q),
    ensures
        trim_token(p + t + q) == trim_token(t),
        is_filler(p + t + q) == is_filler(t),
{
    assert(p + t + q =~= p + (t + q));
    lemma_trim_front_skips(p, t + q);
    if all_trim(t) {
        assert(all_trim(t + q)) by {
            assert forall|i: int| 0 <= i < (t + q).len() implies is_trim_char(#[trigger] (t + q)[i]) by {
                if i < t.len() {
                    assert((t + q)[i] == t[i]);
                } else {
                    assert((t + q)[i] == q[i - t.len()]);
                }
            }
        }
        lemma_trim_front_skips(t + q, seq![]);
        assert(t + q + seq![] =~= t + q);
        lemma_trim_front_skips(t, seq![]);
        assert(t + seq![] =~= t);
    } else {
        lemma_trim_front_keeps_tail(t, q);
        lemma_trim_back_skips(trim_front(t), q);
    }
}

proof fn lemma_trim_char_ignores_case(c1: char, c2: char)
    requires
        ascii_lower_code(c1) == ascii_lower_code(c2),
    ensures
        is_trim_char(c1) == is_trim_char(c2),
{
}

proof fn lemma_eq_ic_tail(a: Seq<char>, b: Seq<char>)
    requires
        eq_ignore_ascii_case(a, b),
        a.len() > 0,
    ensures
        eq_ignore_ascii_case(a.drop_first(), b.drop_first()),
        eq_ignore_ascii_case(a.drop_last(), b.drop_last()),
{
    assert forall|i: int| 0 <= i < a.drop_first().len() implies ascii_lower_code(
        #[trigger] a.drop_first()[i],
    ) == ascii_lower_code(b.drop_first()[i]) by {
        assert(a.drop_first()[i] == a[i + 1]);
        assert(b.drop_first()[i] == b[i + 1]);
    }
    assert forall|i: int| 0 <= i < a.drop_last().len() implies ascii_lower_code(
        #[trigger] a.drop_last()[i],
    ) == ascii_lower_code(b.drop_last()[i]) by {
        assert(a.drop_last()[i] == a[i]);
        assert(b.drop_last()[i] == b[i]);
    }
}

proof fn lemma_trim_front_ignores_case(a: Seq<char>, b: Seq<char>)
    requires
        eq_ignore_ascii_case(a, b),
    ensures
        eq_ignore_ascii_case(trim_front(a), trim_front(b)),
    decreases a.len(),
{
    if a.len() > 0 {
        assert(ascii_lower_code(a[0]) == ascii_lower_code(b[0]));
        lemma_trim_char_ignores_case(a[0], b[0]);
        if is_trim_char(a[0]) {
            lemma_eq_ic_tail(a, b);
            lemma_trim_front_ignores_case(a.drop_first(), b.drop_first());
        }
    }
}

proof fn lemma_trim_back_ignores_case(a: Seq<char>, b: Seq<char>)
    requires
        eq_ignore_ascii_case(a, b),
    ensures
        eq_ignore_ascii_case(trim_back(a), trim_back(b)),
    decreases a.len(),
{
    if a.len() > 0 {
        assert(ascii_lower_code(a[a.len() - 1]) == ascii_lower_code(b[b.len() - 1]));
        lemma_trim_char_ignores_case(a.last(), b.last());
        if is_trim_char(a.last()) {
            lemma_eq_ic_tail(a, b);
            lemma_trim_back_ignores_case(a.drop_last(), b.drop_last());
        }
    }
}

/// ASCII case does not change whether a token is a filler: tokens equal up to
/// ASCII case are both fillers or both not.
pub proof fn lemma_filler_ignores_ascii_case(a: Seq<char>, b: Seq<char>)
    requires
        eq_ignore_ascii_case(a, b),
    ensures
        is_filler(a) == is_filler(b),
{
    lemma_trim_front_ignores_case(a, b);
    lemma_trim_back_ignores_case(trim_front(a), trim_front(b));
    let ta = trim_token(a);
    let tb = trim_token(b);
    if is_filler(a) {
        let k = choose|k: int|
            0 <= k < filler_tokens().len() && eq_ignore_ascii_case(ta, #[trigger] filler_tokens()[k]);
        let f = filler_tokens()[k];
        assert forall|i: int| 0 <= i < tb.len() implies ascii_lower_code(#[trigger] tb[i])
            == ascii_lower_code(f[i]) by {
            assert(ascii_lower_code(ta[i]) == ascii_lower_code(tb[i]));
            assert(ascii_lower_code(ta[i]) == ascii_lower_code(f[i]));
        }
        assert(eq_ignore_ascii_case(tb, f));
    }
    if is_filler(b) {
        let k = choose|k: int|
            0 <= k < filler_tokens().len() && eq_ignore_ascii_case(tb, #[trigger] filler_tokens()[k]);
        let f = filler_tokens()[k];
        assert forall|i: int| 0 <= i < ta.len() implies ascii_lower_code(#[trigger] ta[i])
            == ascii_lower_code(f[i]) by {
            assert(ascii_lower_code(ta[i]) == ascii_lower_code(tb[i]));
            assert(ascii_lower_code(tb[i]) == ascii_lower_code(f[i]));
        }
        assert(eq_ignore_ascii_case(ta, f));
    }
}

/// Printable ASCII other than the space, CJK symbols and punctuation other than
/// the ideographic space (U+3001..U+303F, with '。'), the full-width forms
/// U+FF01..U+FF5E (with '，' '！' '？' '；' '：'), and the CJK unified
/// ideographs U+4E00..U+9FFF.
pub open spec fn is_graphic_text_char(c: char) -> bool {
    let x = c as u32;
    ||| 0x21 <= x <= 0x7e
    ||| 0x3001 <= x <= 0x303f
    ||| 0xff01 <= x <= 0xff5e
    ||| 0x4e00 <= x <= 0x9fff
}

/// Words are separated only by whitespace: no letter, digit or punctuation mark
/// of ASCII, no CJK punctuation, full-width form or ideograph is whitespace.
pub proof fn lemma_graphic_chars_are_not_whitespace(c: char)
    ensures
        is_graphic_text_char(c) ==> !is_unicode_whitespace(c),
{
}

/// A transcript without whitespace that is not a filler token comes back
/// unchanged: it is a single word, kept as it is.
pub proof fn lemma_unbroken_text_unchanged(s: Seq<char>)
    requires
        s.len() > 0,
        forall|i: int| 0 <= i < s.len() ==> !is_unicode_whitespace(#[trigger] s[i]),
        !is_filler(s),
    ensures
        normalized(s) == s,
{
    lemma_words_append_word(seq![], s);
    assert(seq![] + s =~= s);
    let ws = Seq::<Seq<char>>::empty().push(s);
    assert(ws.drop_last() =~= Seq::<Seq<char>>::empty());
    assert(kept_words(Seq::<Seq<char>>::empty()) =~= Seq::<Seq<char>>::empty());
    assert(ws.last() == s);
    assert(kept_words(ws) =~= Seq::<Seq<char>>::empty().push(s));
    assert(kept_words(ws) =~= ws);
    assert(join_words(ws) == s);
}

/// Text made only of printable ASCII, CJK punctuation, full-width forms and
/// ideographs, and that is not a filler token, is left as it is by cleaning;
/// so "你好，世界" stays "你好，世界".
pub proof fn lemma_graphic_text_unchanged(s: Seq<char>)
    requires
        s.len() > 0,
        forall|i: int| 0 <= i < s.len() ==> is_graphic_text_char(#[trigger] s[i]),
        !is_filler(s),
    ensures
        normalized(s) == s,
{
    assert forall|i: int| 0 <= i < s.len() implies !is_unicode_whitespace(#[trigger] s[i]) by {
        lemma_graphic_chars_are_not_whitespace(s[i]);
    }
    lemma_unbroken_text_unchanged(s);
}

/// The filler tokens are exactly "n", "r", "en", "er", "嗯", "呃", "额" and
/// "啊", in any ASCII case: a token is a filler when, trimmed of punctuation,
/// it is one of them.
pub proof fn lemma_filler_tokens_are(t: Seq<char>)
    ensures
        is_filler(t) <==> ({
            let w = trim_token(t);
            ||| eq_ignore_ascii_case(w, seq!['n'])
            ||| eq_ignore_ascii_case(w, seq!['r'])
            ||| eq_ignore_ascii_case(w, seq!['e', 'n'])
            ||| eq_ignore_ascii_case(w, seq!['e', 'r'])
            ||| eq_ignore_ascii_case(w, seq!['\u{55ef}'])
            ||| eq_ignore_ascii_case(w, seq!['\u{5443}'])
            ||| eq_ignore_ascii_case(w, seq!['\u{989d}'])
            ||| eq_ignore_ascii_case(w, seq!['\u{554a}'])
        }),
{
    let w = trim_token(t);
    let f = filler_tokens();
    assert(f.len() == 8);
    assert(f[0] == seq!['n']);
    assert(f[1] == seq!['r']);
    assert(f[2] == seq!['e', 'n']);
    assert(f[3] == seq!['e', 'r']);
    assert(f[4] == seq!['\u{55ef}']);
    assert(f[5] == seq!['\u{5443}']);
    assert(f[6] == seq!['\u{989d}']);
    assert(f[7] == seq!['\u{554a}']);
    if is_filler(t) {
        let k = choose|k: int| 0 <= k < f.len() && eq_ignore_ascii_case(w, #[trigger] f[k]);
        assert(0 <= k < 8);
    }
    if eq_ignore_ascii_case(w, seq!['\u{55ef}']) {
        assert(eq_ignore_ascii_case(w, f[4]));
    }
    if eq_ignore_ascii_case(w, seq!['\u{5443}']) {
        assert(eq_ignore_ascii_case(w, f[5]));
    }
    if eq_ignore_ascii_case(w, seq!['\u{989d}']) {
        assert(eq_ignore_ascii_case(w, f[6]));
    }
    if eq_ignore_ascii_case(w, seq!['\u{554a}']) {
        assert(eq_ignore_ascii_case(w, f[7]));
    }
    if eq_ignore_ascii_case(w, seq!['n']) {
        assert(eq_ignore_ascii_case(w, f[0]));
    }
    if eq_ignore_ascii_case(w, seq!['r']) {
        assert(eq_ignore_ascii_case(w, f[1]));
    }
    if eq_ignore_ascii_case(w, seq!['e', 'n']) {
        assert(eq_ignore_ascii_case(w, f[2]));
    }
    if eq_ignore_ascii_case(w, seq!['e', 'r']) {
        assert(eq_ignore_ascii_case(w, f[3]));
    }
}

} // verus!
