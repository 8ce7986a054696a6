//! Tokens of the configuration text.
//!
//! The text is cut at every space and newline, each piece is trimmed of
//! surrounding whitespace, and empty pieces are dropped. Lexing is total.

use crate::store::Text;
use vstd::prelude::*;

verus! {

/// The characters at which the text is cut.
pub open spec fn separator(c: char) -> bool {
    c == ' ' || c == '\n'
}

/// Unicode whitespace: the characters with the `White_Space` property.
pub open spec fn whitespace(c: char) -> bool {
    let u = c as u32;
    ||| 0x09 <= u <= 0x0d
    ||| u == 0x20
    ||| u == 0x85
    ||| u == 0xa0
    ||| u == 0x1680
    ||| 0x2000 <= u <= 0x200a
    ||| u == 0x2028
    ||| u == 0x2029
    ||| u == 0x202f
    ||| u == 0x205f
    ||| u == 0x3000
}

/// `s` without its leading whitespace.
pub open spec fn trim_start(s: Text) -> Text
    decreases s.len(),
{
    if s.len() > 0 && whitespace(s[0]) {
        trim_start(s.drop_first())
    } else {
        s
    }
}

/// `s` without its trailing whitespace.
pub open spec fn trim_end(s: Text) -> Text
    decreases s.len(),
{
    if s.len() > 0 && whitespace(s.last()) {
        trim_end(s.drop_last())
    } else {
        s
    }
}

/// `s` without the whitespace at either end.
pub open spec fn trimmed(s: Text) -> Text {
    trim_end(trim_start(s))
}

/// The number of characters of `s` before its first separator.
pub open spec fn piece_len(s: Text) -> nat
    decreases s.len(),
{
    if s.len() == 0 || separator(s[0]) {
        0
    } else {
        1 + piece_len(s.drop_first())
    }
}

/// What a piece contributes: itself, trimmed, unless nothing is left of it.
pub open spec fn piece_tokens(piece: Text) -> Seq<Text> {
    if trimmed(piece).len() > 0 {
        seq![trimmed(piece)]
    } else {
        Seq::empty()
    }
}

/// The tokens of `s`, in order.
pub open spec fn tokens(s: Text) -> Seq<Text>
    decreases s.len(),
{
    let n = piece_len(s) as int;
    if n < s.len() {
        piece_tokens(s.take(n)) + tokens(s.skip(n + 1))
    } else {
        piece_tokens(s)
    }
}

/// The views of a vector of strings.
pub open spec fn texts(v: Seq<String>) -> Seq<Text> {
    v.map_values(|t: String| t@)
}

/// `piece_len` is the position of the first separator, or the length where there is none.
pub proof fn lemma_piece_len(s: Text, n: int)
    requires
        0 <= n <= s.len(),
        forall|k: int| 0 <= k < n ==> !separator(#[trigger] s[k]),
        n < s.len() ==> separator(s[n]),
    ensures
        piece_len(s) == n,
    decreases s.len(),
{
    if n > 0 {
        let rest = s.drop_first();
        assert forall|k: int| 0 <= k < n - 1 implies !separator(#[trigger] rest[k]) by {
            assert(rest[k] == s[k + 1]);
        }
        lemma_piece_len(rest, n - 1);
    }
}

/// The converse: before `piece_len` there is no separator, and one stands at it.
pub proof fn lemma_piece_len_bounds(s: Text)
    ensures
        piece_len(s) <= s.len(),
        forall|k: int| 0 <= k < piece_len(s) ==> !separator(#[trigger] s[k]),
        piece_len(s) < s.len() ==> separator(s[piece_len(s) as int]),
    decreases s.len(),
{
    if !(s.len() == 0 || separator(s[0])) {
        let rest = s.drop_first();
        lemma_piece_len_bounds(rest);
        assert forall|k: int| 0 <= k < piece_len(s) implies !separator(#[trigger] s[k]) by {
            if k > 0 {
                assert(rest[k - 1] == s[k]);
            }
        }
    }
}

/// Dropping `a` leading whitespace characters, where the next is none, is `trim_start`.
pub proof fn lemma_trim_start(s: Text, a: int)
    requires
        0 <= a <= s.len(),
        forall|k: int| 0 <= k < a ==> whitespace(#[trigger] s[k]),
        a < s.len() ==> !whitespace(s[a]),
    ensures
        trim_start(s) == s.skip(a),
    decreases s.len(),
{
    if a > 0 {
        let rest = s.drop_first();
        assert forall|k: int| 0 <= k < a - 1 implies whitespace(#[trigger] rest[k]) by {
            assert(rest[k] == s[k + 1]);
        }
        lemma_trim_start(rest, a - 1);
        assert(rest.skip(a - 1) =~= s.skip(a));
    } else {
        assert(s.skip(0) =~= s);
    }
}

/// Keeping `b` characters, where the rest is whitespace and the last kept is none, is `trim_end`.
pub proof fn lemma_trim_end(s: Text, b: int)
    requires
        0 <= b <= s.len(),
        forall|k: int| b <= k < s.len() ==> whitespace(#[trigger] s[k]),
        b > 0 ==> !whitespace(s[b - 1]),
    ensures
        trim_end(s) == s.take(b),
    decreases s.len(),
{
    if b < s.len() {
        let front = s.drop_last();
        assert forall|k: int| b <= k < front.len() implies whitespace(#[trigger] front[k]) by {
            assert(front[k] == s[k]);
        }
        lemma_trim_end(front, b);
        assert(front.take(b) =~= s.take(b));
    } else {
        assert(s.take(b) =~= s);
    }
}

/// `trim_start` leaves a tail of `s` that does not begin with whitespace.
pub proof fn lemma_trim_start_is_tail(s: Text)
    ensures
        trim_start(s).len() <= s.len(),
        trim_start(s) == s.skip(s.len() - trim_start(s).len()),
        trim_start(s).len() > 0 ==> !whitespace(trim_start(s)[0]),
    decreases s.len(),
{
    if s.len() > 0 && whitespace(s[0]) {
        let rest = s.drop_first();
        lemma_trim_start_is_tail(rest);
        assert(rest.skip(rest.len() - trim_start(rest).len()) =~= s.skip(
            s.len() - trim_start(s).len(),
        ));
    } else {
        assert(s.skip(0) =~= s);
    }
}

/// `trim_end` leaves a head of `s` that does not end with whitespace.
pub proof fn lemma_trim_end_is_head(s: Text)
    ensures
        trim_end(s).len() <= s.len(),
        trim_end(s) == s.take(trim_end(s).len() as int),
        trim_end(s).len() > 0 ==> !whitespace(trim_end(s).last()),
    decreases s.len(),
{
    if s.len() > 0 && whitespace(s.last()) {
        let front = s.drop_last();
        lemma_trim_end_is_head(front);
        assert(front.take(trim_end(front).len() as int) =~= s.take(trim_end(s).len() as int));
    } else {
        assert(s.take(s.len() as int) =~= s);
    }
}

/// A text is clean: it is not empty, holds no separator, and neither
/// begins nor ends with whitespace.
pub open spec fn clean(t: Text) -> bool {
    &&& t.len() > 0
    &&& forall|k: int| 0 <= k < t.len() ==> !separator(#[trigger] t[k])
    &&& !whitespace(t[0])
    &&& !whitespace(t.last())
}

/// What a piece without separators contributes is clean.
proof fn lemma_piece_tokens_clean(piece: Text)
    requires
        forall|k: int| 0 <= k < piece.len() ==> !separator(#[trigger] piece[k]),
    ensures
        forall|k: int| 0 <= k < piece_tokens(piece).len() ==> clean(#[trigger] piece_tokens(piece)[k]),
{
    let tail = trim_start(piece);
    let kept = trimmed(piece);
    lemma_trim_start_is_tail(piece);
    lemma_trim_end_is_head(tail);
    if kept.len() > 0 {
        let from = piece.len() - tail.len();
        assert(kept[0] == tail[0]);
        assert forall|k: int| 0 <= k < kept.len() implies !separator(#[trigger] kept[k]) by {
            assert(kept[k] == tail[k]);
            assert(tail[k] == piece[from + k]);
        }
        assert(clean(kept));
        assert(piece_tokens(piece)[0] == kept);
    }
}

/// Every token is clean: no token is empty, none holds a space or a
/// newline, and none begins or ends with whitespace.
pub proof fn law_tokens_are_clean(s: Text)
    ensures
        forall|k: int| 0 <= k < tokens(s).len() ==> clean(#[trigger] tokens(s)[k]),
    decreases s.len(),
{
    let n = piece_len(s) as int;
    lemma_piece_len_bounds(s);
    if n < s.len() {
        let piece = s.take(n);
        let head = piece_tokens(piece);
        let tail = tokens(s.skip(n + 1));
        assert forall|k: int| 0 <= k < piece.len() implies !separator(#[trigger] piece[k]) by {
            assert(piece[k] == s[k]);
        }
        lemma_piece_tokens_clean(piece);
        law_tokens_are_clean(s.skip(n + 1));
        assert forall|k: int| 0 <= k < tokens(s).len() implies clean(#[trigger] tokens(s)[k]) by {
            if k < head.len() {
                assert(tokens(s)[k] == head[k]);
            } else {
                assert(tokens(s)[k] == tail[k - head.len()]);
            }
        }
    } else {
        lemma_piece_tokens_clean(s);
    }
}

/// A separator between two texts separates their tokens.
pub proof fn lemma_tokens_split(a: Text, sep: char, b: Text)
    requires
        separator(sep),
    ensures
        tokens(a + seq![sep] + b) == tokens(a) + tokens(b),
    decreases a.len(),
{
    let whole = a + seq![sep] + b;
    let n = piece_len(a) as int;
    lemma_piece_len_bounds(a);
    assert forall|k: int| 0 <= k < n implies !separator(#[trigger] whole[k]) by {
        assert(whole[k] == a[k]);
    }
    if n < a.len() {
        assert(whole[n] == a[n]);
        lemma_piece_len(whole, n);
        assert(whole.take(n) =~= a.take(n));
        assert(whole.skip(n + 1) =~= a.skip(n + 1) + seq![sep] + b);
        lemma_tokens_split(a.skip(n + 1), sep, b);
        assert(tokens(whole) =~= tokens(a) + tokens(b));
    } else {
        assert(whole[n] == sep);
        lemma_piece_len(whole, n);
        assert(whole.take(n) =~= a);
        assert(whole.skip(n + 1) =~= b);
    }
}

/// A run of separators holds no token.
pub proof fn lemma_tokens_of_separators(run: Text)
    requires
        forall|k: int| 0 <= k < run.len() ==> separator(#[trigger] run[k]),
    ensures
        tokens(run) == Seq::<Text>::empty(),
    decreases run.len(),
{
    assert(trimmed(Seq::<char>::empty()) =~= Seq::<char>::empty());
    if run.len() > 0 {
        assert(separator(run[0]));
        assert(run.take(0) =~= Seq::<char>::empty());
        let rest = run.skip(1);
        assert forall|k: int| 0 <= k < rest.len() implies separator(#[trigger] rest[k]) by {
            assert(rest[k] == run[k + 1]);
        }
        lemma_tokens_of_separators(rest);
        assert(tokens(run) =~= Seq::<Text>::empty());
    }
}

/// A non-empty run of separators between two texts separates their tokens.
pub proof fn lemma_tokens_around_run(a: Text, run: Text, b: Text)
    requires
        run.len() > 0,
        forall|k: int| 0 <= k < run.len() ==> separator(#[trigger] run[k]),
    ensures
        tokens(a + run + b) == tokens(a) + tokens(b),
{
    let sep = run[0];
    let rest = run.skip(1);
    assert(separator(run[0]));
    assert(a + run + b =~= a + seq![sep] + (rest + b));
    lemma_tokens_split(a, sep, rest + b);
    if rest.len() > 0 {
        let last = rest.last();
        assert(rest[rest.len() - 1] == run[rest.len() as int]);
        assert(separator(last));
        let front = rest.drop_last();
        assert forall|k: int| 0 <= k < front.len() implies separator(#[trigger] front[k]) by {
            assert(front[k] == run[k + 1]);
        }
        assert(rest + b =~= front + seq![last] + b);
        lemma_tokens_split(front, last, b);
        lemma_tokens_of_separators(front);
        assert(tokens(rest + b) =~= tokens(b));
    } else {
        assert(rest + b =~= b);
    }
}

/// Lexing does not depend on how many separators stand between two pieces,
/// nor on which: any non-empty run of spaces and newlines may replace another.
pub proof fn law_separator_runs(a: Text, first: Text, second: Text, b: Text)
    requires
        first.len() > 0,
        second.len() > 0,
        forall|k: int| 0 <= k < first.len() ==> separator(#[trigger] first[k]),
        forall|k: int| 0 <= k < second.len() ==> separator(#[trigger] second[k]),
    ensures
        tokens(a + first + b) == tokens(a + second + b),
{
    lemma_tokens_around_run(a, first, b);
    lemma_tokens_around_run(a, second, b);
}

/// Whether `c` is Unicode whitespace.
pub fn is_whitespace(c: char) -> (r: bool)
    ensures
        r == whitespace(c),
{
    let u: u32 = c as u32;
    (0x09 <= u && u <= 0x0d) || u == 0x20 || u == 0x85 || u == 0xa0 || u == 0x1680 || (0x2000 <= u
        && u <= 0x200a) || u == 0x2028 || u == 0x2029 || u == 0x202f || u == 0x205f || u == 0x3000
}

/// Whether the text is cut at `c`.
pub fn is_separator(c: char) -> (r: bool)
    ensures
        r == separator(c),
{
    c == ' ' || c == '\n'
}

/// The characters of `text`.
fn characters(text: &str) -> (chars: Vec<char>)
    ensures
        chars@ == text@,
{
    let mut chars: Vec<char> = Vec::new();
    for c in it: text.chars()
        invariant
            chars@ == it.seq().take(it.index()),
    {
        chars.push(c);
    }
    chars
}

/// Pushing a string pushes its view.
proof fn lemma_texts_push(v: Seq<String>, t: String)
    ensures
        texts(v.push(t)) == texts(v).push(t@),
{
    assert(texts(v.push(t)) =~= texts(v).push(t@));
}

/// Cuts `text` into its tokens.
pub fn tokenize(text: &str) -> (out: Vec<String>)
    ensures
        texts(out@) == tokens(text@),
        forall|k: int| 0 <= k < out@.len() ==> clean(#[trigger] out@[k]@),
{
    proof {
        law_tokens_are_clean(text@);
    }
    let chars = characters(text);
    let n: usize = chars.len();
    let mut out: Vec<String> = Vec::new();
    let mut i: usize = 0;
    let mut done = false;
    assert(text@.skip(0) =~= text@);
    assert(texts(out@) =~= Seq::<Text>::empty());
    while !done
        invariant
            chars@ == text@,
            n == chars.len(),
            i <= n,
            !done ==> tokens(text@) == texts(out@) + tokens(text@.skip(i as int)),
            done ==> tokens(text@) == texts(out@),
        decreases n - i + (if done { 0int } else { 1int }),
    {
        let ghost rest = text@.skip(i as int);
        let ghost before = texts(out@);
        let mut j: usize = i;
        while j < n && !is_separator(chars[j])
            invariant
                chars@ == text@,
                n == chars.len(),
                i <= j <= n,
                forall|k: int| i <= k < j ==> !separator(#[trigger] chars@[k]),
            decreases n - j,
        {
            j += 1;
        }
        let mut a: usize = i;
        while a < j && is_whitespace(chars[a])
            invariant
                chars@ == text@,
                n == chars.len(),
                i <= a <= j <= n,
                forall|k: int| i <= k < a ==> whitespace(#[trigger] chars@[k]),
            decreases j - a,
        {
            a += 1;
        }
        let mut b: usize = j;
        while b > a && is_whitespace(chars[b - 1])
            invariant
                chars@ == text@,
                n == chars.len(),
                a <= b <= j <= n,
                forall|k: int| b <= k < j ==> whitespace(#[trigger] chars@[k]),
            decreases b - a,
        {
            b -= 1;
        }
        let ghost piece = text@.subrange(i as int, j as int);
        proof {
            assert forall|k: int| 0 <= k < j - i implies !separator(#[trigger] rest[k]) by {
                assert(rest[k] == chars@[i + k]);
            }
            lemma_piece_len(rest, j - i);
            assert(rest.take(j - i) =~= piece);
            assert forall|k: int| 0 <= k < a - i implies whitespace(#[trigger] piece[k]) by {
                assert(piece[k] == chars@[i + k]);
            }
            lemma_trim_start(piece, a - i);
            let middle = piece.skip(a - i);
            assert forall|k: int| b - a <= k < middle.len() implies whitespace(
                #[trigger] middle[k],
            ) by {
                assert(middle[k] == chars@[a + k]);
            }
            if b > a {
                assert(middle[b - a - 1] == chars@[b - 1]);
            }
            lemma_trim_end(middle, b - a);
            assert(middle.take(b - a) =~= text@.subrange(a as int, b as int));
        }
        assert(trimmed(piece) == text@.subrange(a as int, b as int));
        if b > a {
            let token = String::from_str(text.substring_char(a, b));
            proof {
                lemma_texts_push(out@, token);
            }
            out.push(token);
        }
        assert(texts(out@) =~= before + piece_tokens(piece));
        if j < n {
            assert(rest.skip(j - i + 1) =~= text@.skip(j + 1));
            assert(tokens(text@) =~= texts(out@) + tokens(text@.skip(j + 1)));
            i = j + 1;
        } else {
            assert(piece =~= rest);
            assert(tokens(text@) =~= texts(out@));
            done = true;
        }
    }
    assert forall|k: int| 0 <= k < out@.len() implies clean(#[trigger] out@[k]@) by {
        assert(texts(out@)[k] == out@[k]@);
    }
    out
}

} // verus!
