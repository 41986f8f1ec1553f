use vstd::prelude::*;

use crate::text::{chars_of, push_all, string_of, string_of_range};

verus! {

/// Whitespace as Unicode's `White_Space` property lists it (what `char::is_whitespace` tests).
pub open spec fn is_space_spec(c: char) -> bool {
    let u = c as u32;
    (0x9 <= u && u <= 0xd) || u == 0x20 || u == 0x85 || u == 0xa0 || u == 0x1680 || (0x2000 <= u
        && u <= 0x200a) || u == 0x2028 || u == 0x2029 || u == 0x202f || u == 0x205f || u == 0x3000
}

/// Whether `c` is whitespace.
pub fn is_space(c: char) -> (r: bool)
    ensures
        r == is_space_spec(c),
{
    let u = c as u32;
    (0x9 <= u && u <= 0xd) || u == 0x20 || u == 0x85 || u == 0xa0 || u == 0x1680 || (0x2000 <= u
        && u <= 0x200a) || u == 0x2028 || u == 0x2029 || u == 0x202f || u == 0x205f || u == 0x3000
}

/// The maximal runs of non-whitespace characters of `s`, left to right.
pub open spec fn words(s: Seq<char>) -> Seq<Seq<char>>
    decreases s.len(),
{
    if s.len() == 0 {
        seq![]
    } else {
        let p = words(s.drop_last());
        let c = s.last();
        if is_space_spec(c) {
            p
        } else if s.len() >= 2 && !is_space_spec(s[s.len() - 2]) {
            p.drop_last().push(p.last().push(c))
        } else {
            p.push(seq![c])
        }
    }
}

/// Lines joined by single spaces.
pub open spec fn join(ls: Seq<Seq<char>>) -> Seq<char>
    decreases ls.len(),
{
    if ls.len() == 0 {
        seq![]
    } else if ls.len() == 1 {
        ls[0]
    } else {
        join(ls.drop_last()) + seq![' '] + ls.last()
    }
}

/// A word cut into consecutive pieces of `n` characters, the last one possibly shorter.
pub open spec fn pieces(word: Seq<char>, n: nat) -> Seq<Seq<char>>
    decreases word.len(),
{
    if word.len() == 0 || n == 0 {
        seq![]
    } else if word.len() <= n {
        seq![word]
    } else {
        seq![word.take(n as int)] + pieces(word.skip(n as int), n)
    }
}

/// One word placed after the finished lines and the line being filled.
pub open spec fn place(lines: Seq<Seq<char>>, cur: Seq<char>, word: Seq<char>, w: nat) -> (
    Seq<Seq<char>>,
    Seq<char>,
) {
    if cur.len() + word.len() + 1 > w {
        let done = if cur.len() > 0 {
            lines.push(cur)
        } else {
            lines
        };
        if word.len() > w {
            (done + pieces(word, w), seq![])
        } else {
            (done, word)
        }
    } else if cur.len() > 0 {
        (lines, cur + seq![' '] + word)
    } else {
        (lines, word)
    }
}

/// Finished lines and the line being filled after placing all of `ws` greedily.
pub open spec fn fill(ws: Seq<Seq<char>>, w: nat) -> (Seq<Seq<char>>, Seq<char>)
    decreases ws.len(),
{
    if ws.len() == 0 {
        (seq![], seq![])
    } else {
        let (lines, cur) = fill(ws.drop_last(), w);
        place(lines, cur, ws.last(), w)
    }
}

/// The lines of `ws` wrapped at width `w`.
pub open spec fn wrap_words(ws: Seq<Seq<char>>, w: nat) -> Seq<Seq<char>> {
    let (lines, cur) = fill(ws, w);
    if cur.len() > 0 {
        lines.push(cur)
    } else {
        lines
    }
}

/// The lines of text `s` wrapped at width `w`.
pub open spec fn wrap(s: Seq<char>, w: nat) -> Seq<Seq<char>> {
    wrap_words(words(s), w)
}

/// The views of a sequence of strings.
pub open spec fn views(v: Seq<String>) -> Seq<Seq<char>> {
    v.map_values(|x: String| x@)
}

/// The views of a sequence of character vectors.
pub open spec fn char_views(v: Seq<Vec<char>>) -> Seq<Seq<char>> {
    v.map_values(|x: Vec<char>| x@)
}

/// The words of `c`: its maximal runs of non-whitespace characters.
pub fn split_words(c: &Vec<char>) -> (r: Vec<Vec<char>>)
    ensures
        char_views(r@) == words(c@),
{
    let mut done: Vec<Vec<char>> = Vec::new();
    let mut cur: Vec<char> = Vec::new();
    let mut i: usize = 0;
    while i < c.len()
        invariant
            i <= c@.len(),
            words(c@.take(i as int)) == char_views(done@) + (if cur@.len() > 0 {
                seq![cur@]
            } else {
                seq![]
            }),
            cur@.len() > 0 <==> (i > 0 && !is_space_spec(c@[i - 1])),
        decreases c@.len() - i,
    {
        let ch = c[i];
        let ghost s1 = c@.take(i + 1);
        assert(s1.drop_last() =~= c@.take(i as int));
        assert(s1.last() == ch);
        if is_space(ch) {
            if cur.len() > 0 {
                let ghost before = done@;
                done.push(cur);
                assert(char_views(done@) =~= char_views(before).push(cur@));
                cur = Vec::new();
            }
            assert(char_views(done@) + seq![] =~= char_views(done@));
            assert(words(s1) == words(c@.take(i as int)));
        } else {
            let ghost old_cur = cur@;
            let ghost old_done = char_views(done@);
            cur.push(ch);
            proof {
                if old_cur.len() > 0 {
                    assert(s1[s1.len() - 2] == c@[i - 1]);
                    let p = old_done + seq![old_cur];
                    assert(p.drop_last() =~= old_done);
                    assert(old_cur.push(ch) =~= cur@);
                    assert(old_done + seq![cur@] =~= p.drop_last().push(p.last().push(ch)));
                    assert(words(s1) == old_done + seq![cur@]);
                } else {
                    assert(old_done + seq![] =~= old_done);
                    assert(cur@ =~= seq![ch]);
                    assert(words(s1) == old_done.push(seq![ch]));
                    assert(old_done + seq![cur@] =~= old_done.push(seq![ch]));
                }
            }
        }
        i += 1;
    }
    assert(c@.take(i as int) =~= c@);
    if cur.len() > 0 {
        let ghost before = done@;
        done.push(cur);
        assert(char_views(done@) =~= char_views(before).push(cur@));
    } else {
        assert(char_views(done@) + seq![] =~= char_views(done@));
    }
    done
}

/// Appends to `lines` the pieces of `word` at width `w`.
fn push_pieces(lines: &mut Vec<String>, word: &Vec<char>, w: usize)
    requires
        w >= 1,
    ensures
        views(final(lines)@) == views(old(lines)@) + pieces(word@, w as nat),
{
    let ghost target = views(lines@) + pieces(word@, w as nat);
    let mut k: usize = 0;
    assert(word@.skip(0) =~= word@);
    while k < word.len()
        invariant
            w >= 1,
            k <= word@.len(),
            views(lines@) + pieces(word@.skip(k as int), w as nat) == target,
        decreases word@.len() - k,
    {
        let rest = word.len() - k;
        let ghost before = views(lines@);
        let ghost tail = word@.skip(k as int);
        if rest <= w {
            let s = string_of_range(word, k, word.len());
            assert(s@ =~= tail);
            lines.push(s);
            assert(views(lines@) =~= before.push(tail));
            assert(pieces(tail, w as nat) == seq![tail]);
            k = word.len();
            assert(word@.skip(k as int) =~= Seq::<char>::empty());
            assert(before + seq![tail] =~= before.push(tail));
            assert(views(lines@) + pieces(word@.skip(k as int), w as nat) =~= before + seq![tail]);
        } else {
            let s = string_of_range(word, k, k + w);
            assert(s@ =~= tail.take(w as int));
            lines.push(s);
            assert(views(lines@) =~= before.push(tail.take(w as int)));
            assert(tail.skip(w as int) =~= word@.skip(k + w));
            k = k + w;
            assert(views(lines@) + pieces(word@.skip(k as int), w as nat) =~= before + pieces(
                tail,
                w as nat,
            ));
        }
    }
    assert(word@.skip(k as int) =~= Seq::<char>::empty());
    assert(views(lines@) + seq![] =~= views(lines@));
}

/// Word-wraps `text` into lines of at most `max_width` characters.
///
/// Words are the maximal runs of non-whitespace characters; they are placed greedily,
/// one space apart, and a word longer than the width is cut into pieces of that width.
pub fn wrap_text(text: &str, max_width: usize) -> (r: Vec<String>)
    requires
        max_width >= 1,
    ensures
        views(r@) == wrap(text@, max_width as nat),
{
    let chars = chars_of(text);
    let ws = split_words(&chars);
    let ghost wv = char_views(ws@);
    let ghost w = max_width as nat;
    let mut lines: Vec<String> = Vec::new();
    let mut cur: Vec<char> = Vec::new();
    let mut i: usize = 0;
    assert(wv.take(0) =~= Seq::<Seq<char>>::empty());
    while i < ws.len()
        invariant
            max_width >= 1,
            w == max_width as nat,
            wv == char_views(ws@),
            i <= ws@.len(),
            cur@.len() <= max_width,
            (views(lines@), cur@) == fill(wv.take(i as int), w),
        decreases ws@.len() - i,
    {
        let word = &ws[i];
        let ghost lv = views(lines@);
        let ghost cv = cur@;
        assert(wv.take(i + 1).drop_last() =~= wv.take(i as int));
        assert(wv.take(i + 1).last() == word@);
        if word.len() >= max_width - cur.len() {
            if cur.len() > 0 {
                lines.push(string_of(&cur));
                assert(views(lines@) =~= lv.push(cv));
                cur = Vec::new();
            }
            if word.len() > max_width {
                push_pieces(&mut lines, word, max_width);
            } else {
                cur = Vec::new();
                push_all(&mut cur, word);
                assert(cur@ =~= word@);
            }
        } else if cur.len() > 0 {
            cur.push(' ');
            push_all(&mut cur, word);
            assert(cur@ =~= cv + seq![' '] + word@);
        } else {
            push_all(&mut cur, word);
            assert(cur@ =~= word@);
        }
        i += 1;
    }
    assert(wv.take(i as int) =~= wv);
    if cur.len() > 0 {
        let ghost lv = views(lines@);
        lines.push(string_of(&cur));
        assert(views(lines@) =~= lv.push(cur@));
    }
    lines
}

/// Every word is non-empty and holds no whitespace.
pub proof fn lemma_words_solid(s: Seq<char>)
    ensures
        forall|i: int|
            0 <= i < words(s).len() ==> #[trigger] words(s)[i].len() > 0 && forall|j: int|
                0 <= j < words(s)[i].len() ==> !is_space_spec(words(s)[i][j]),
    decreases s.len(),
{
    if s.len() > 0 {
        lemma_words_solid(s.drop_last());
        let p = words(s.drop_last());
        let c = s.last();
        if !is_space_spec(c) && s.len() >= 2 && !is_space_spec(s[s.len() - 2]) {
            lemma_words_after_solid(s.drop_last());
            let q = p.drop_last().push(p.last().push(c));
            assert forall|i: int| 0 <= i < q.len() implies #[trigger] q[i].len() > 0 && forall|j: int|
                0 <= j < q[i].len() ==> !is_space_spec(q[i][j]) by {
                if i == q.len() - 1 {
                    assert(q[i] == p.last().push(c));
                    assert forall|j: int| 0 <= j < q[i].len() implies !is_space_spec(q[i][j]) by {
                        if j < p.last().len() {
                            assert(q[i][j] == p[p.len() - 1][j]);
                        }
                    }
                } else {
                    assert(q[i] == p[i]);
                }
            }
        } else if !is_space_spec(c) {
            let q = p.push(seq![c]);
            assert forall|i: int| 0 <= i < q.len() implies #[trigger] q[i].len() > 0 && forall|j: int|
                0 <= j < q[i].len() ==> !is_space_spec(q[i][j]) by {
                if i < p.len() {
                    assert(q[i] == p[i]);
                }
            }
        }
    }
}

/// A text that ends in a non-whitespace character has at least one word.
proof fn lemma_words_after_solid(s: Seq<char>)
    requires
        s.len() > 0,
        !is_space_spec(s.last()),
    ensures
        words(s).len() > 0,
    decreases s.len(),
{
    if s.len() >= 2 && !is_space_spec(s[s.len() - 2]) {
        assert(s.drop_last().last() == s[s.len() - 2]);
        lemma_words_after_solid(s.drop_last());
    }
}

/// Every piece of a word cut at width `n` is non-empty and at most `n` long.
pub proof fn lemma_pieces_fit(word: Seq<char>, n: nat)
    requires
        n >= 1,
    ensures
        forall|i: int|
            0 <= i < pieces(word, n).len() ==> 0 < #[trigger] pieces(word, n)[i].len() <= n,
    decreases word.len(),
{
    if word.len() > n {
        lemma_pieces_fit(word.skip(n as int), n);
        let q = seq![word.take(n as int)] + pieces(word.skip(n as int), n);
        assert forall|i: int| 0 <= i < q.len() implies 0 < #[trigger] q[i].len() <= n by {
            if i > 0 {
                assert(q[i] == pieces(word.skip(n as int), n)[i - 1]);
            }
        }
    }
}

/// Lines joined by single spaces, one more line.
pub proof fn lemma_join_push(ls: Seq<Seq<char>>, a: Seq<char>)
    ensures
        join(ls.push(a)) == if ls.len() == 0 {
            a
        } else {
            join(ls) + seq![' '] + a
        },
{
    assert(ls.push(a).drop_last() =~= ls);
}

/// Greedy filling keeps every finished line non-empty and within the width, and the
/// line being filled within the width.
pub proof fn lemma_fill_fits(ws: Seq<Seq<char>>, w: nat)
    requires
        w >= 1,
        forall|i: int| 0 <= i < ws.len() ==> #[trigger] ws[i].len() > 0,
    ensures
        fill(ws, w).1.len() <= w,
        forall|i: int|
            0 <= i < fill(ws, w).0.len() ==> 0 < #[trigger] fill(ws, w).0[i].len() <= w,
    decreases ws.len(),
{
    if ws.len() > 0 {
        let prev = ws.drop_last();
        assert forall|i: int| 0 <= i < prev.len() implies #[trigger] prev[i].len() > 0 by {
            assert(prev[i] == ws[i]);
        }
        lemma_fill_fits(prev, w);
        let (l, c) = fill(prev, w);
        let word = ws.last();
        assert(word == ws[ws.len() - 1]);
        if c.len() + word.len() + 1 > w {
            let done = if c.len() > 0 {
                l.push(c)
            } else {
                l
            };
            assert forall|i: int| 0 <= i < done.len() implies 0 < #[trigger] done[i].len() <= w by {
                if i < l.len() {
                    assert(done[i] == l[i]);
                }
            }
            if word.len() > w {
                lemma_pieces_fit(word, w);
                let q = done + pieces(word, w);
                assert forall|i: int| 0 <= i < q.len() implies 0 < #[trigger] q[i].len() <= w by {
                    if i < done.len() {
                        assert(q[i] == done[i]);
                    } else {
                        assert(q[i] == pieces(word, w)[i - done.len()]);
                    }
                }
            }
        }
    }
}

/// The lines of `s` wrapped at width `w` are non-empty and at most `w` characters long.
pub proof fn lemma_wrap_fits(s: Seq<char>, w: nat)
    requires
        w >= 1,
    ensures
        forall|i: int| 0 <= i < wrap(s, w).len() ==> 0 < #[trigger] wrap(s, w)[i].len() <= w,
{
    lemma_words_solid(s);
    let ws = words(s);
    assert forall|i: int| 0 <= i < ws.len() implies #[trigger] ws[i].len() > 0 by {}
    lemma_fill_fits(ws, w);
    let (l, c) = fill(ws, w);
    let r = wrap(s, w);
    assert forall|i: int| 0 <= i < r.len() implies 0 < #[trigger] r[i].len() <= w by {
        if i < l.len() {
            assert(r[i] == l[i]);
        }
    }
}

/// Where no word is longer than the width, wrapping moves line breaks only: the lines
/// joined by single spaces are the words joined by single spaces.
pub proof fn lemma_fill_join(ws: Seq<Seq<char>>, w: nat)
    requires
        w >= 1,
        forall|i: int| 0 <= i < ws.len() ==> 0 < #[trigger] ws[i].len() <= w,
    ensures
        join(wrap_words(ws, w)) == join(ws),
        wrap_words(ws, w).len() == 0 <==> ws.len() == 0,
    decreases ws.len(),
{
    if ws.len() > 0 {
        let prev = ws.drop_last();
        assert forall|i: int| 0 <= i < prev.len() implies 0 < #[trigger] prev[i].len() <= w by {
            assert(prev[i] == ws[i]);
        }
        lemma_fill_join(prev, w);
        let (l, c) = fill(prev, w);
        let word = ws.last();
        assert(word == ws[ws.len() - 1]);
        let before = wrap_words(prev, w);
        lemma_join_push(prev, word);
        assert(prev.push(word) =~= ws);
        if c.len() + word.len() + 1 > w {
            if c.len() > 0 {
                lemma_join_push(l.push(c), word);
            } else {
                lemma_join_push(l, word);
            }
        } else if c.len() > 0 {
            lemma_join_push(l, c + seq![' '] + word);
            lemma_join_push(l, c);
            assert(join(l) + seq![' '] + (c + seq![' '] + word) =~= join(l) + seq![' '] + c
                + seq![' '] + word);
        } else {
            lemma_join_push(l, word);
        }
    }
}

/// Where no word of `s` is longer than `w`, the wrapped lines joined by single spaces
/// are `s` with its whitespace collapsed: its words joined by single spaces.
pub proof fn lemma_wrap_join(s: Seq<char>, w: nat)
    requires
        w >= 1,
        forall|i: int| 0 <= i < words(s).len() ==> #[trigger] words(s)[i].len() <= w,
    ensures
        join(wrap(s, w)) == join(words(s)),
{
    lemma_words_solid(s);
    let ws = words(s);
    assert forall|i: int| 0 <= i < ws.len() implies 0 < #[trigger] ws[i].len() <= w by {}
    lemma_fill_join(ws, w);
}

} // verus!
