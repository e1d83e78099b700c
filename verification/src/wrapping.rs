//! Greedy word wrapping of a detail page value to a width in bytes.
use vstd::prelude::*;
use crate::page_extract::views;
use crate::text::{push_char, push_str};

verus! {

/// Whether a character has the Unicode `White_Space` property (as
/// `char::is_whitespace` decides).
pub open spec fn is_white(c: char) -> bool {
    ||| c == ' '
    ||| ('\t' <= c && c <= '\r')
    ||| c == '\u{85}'
    ||| c == '\u{A0}'
    ||| c == '\u{1680}'
    ||| ('\u{2000}' <= c && c <= '\u{200A}')
    ||| c == '\u{2028}'
    ||| c == '\u{2029}'
    ||| c == '\u{202F}'
    ||| c == '\u{205F}'
    ||| c == '\u{3000}'
}

/// Number of bytes of a character in UTF-8.
pub open spec fn utf8_len(c: char) -> nat {
    if (c as u32) < 0x80 {
        1
    } else if (c as u32) < 0x800 {
        2
    } else if (c as u32) < 0x10000 {
        3
    } else {
        4
    }
}

/// Number of bytes of a text in UTF-8.
pub open spec fn byte_len(s: Seq<char>) -> nat
    decreases s.len(),
{
    if s.len() == 0 {
        0
    } else {
        byte_len(s.drop_last()) + utf8_len(s.last())
    }
}

/// The words of a text: its maximal runs of characters that are not white
/// space, in order.
pub open spec fn words(s: Seq<char>) -> Seq<Seq<char>>
    decreases s.len(),
{
    if s.len() == 0 {
        Seq::empty()
    } else {
        let w = words(s.drop_last());
        let c = s.last();
        if is_white(c) {
            w
        } else if s.len() >= 2 && !is_white(s[s.len() - 2]) {
            w.update(w.len() - 1, w.last().push(c))
        } else {
            w.push(seq![c])
        }
    }
}

/// One step of greedy wrapping: the word joins the current line, separated
/// by a space, when the line stays within `width` bytes; otherwise the
/// current line (if any) is finished and the word starts the next one.
pub open spec fn wrap_step(st: (Seq<Seq<char>>, Seq<char>), word: Seq<char>, width: nat) -> (
    Seq<Seq<char>>,
    Seq<char>,
) {
    let done = st.0;
    let cur = st.1;
    let potential = if cur.len() == 0 {
        byte_len(word)
    } else {
        byte_len(cur) + 1 + byte_len(word)
    };
    if potential <= width {
        (done, if cur.len() == 0 { word } else { cur + " "@ + word })
    } else {
        (if cur.len() > 0 { done.push(cur) } else { done }, word)
    }
}

/// Greedy wrapping of some words: the finished lines and the current line.
pub open spec fn wrap_fold(ws: Seq<Seq<char>>, width: nat) -> (Seq<Seq<char>>, Seq<char>)
    decreases ws.len(),
{
    if ws.len() == 0 {
        (Seq::empty(), Seq::empty())
    } else {
        wrap_step(wrap_fold(ws.drop_last(), width), ws.last(), width)
    }
}

/// The lines of a text wrapped to `width` bytes: the text unchanged for a
/// zero width; otherwise its words greedily filled into lines (a word longer
/// than the width gets a line of its own), and one empty line for a text
/// without words.
pub open spec fn wrapped(text: Seq<char>, width: nat) -> Seq<Seq<char>> {
    if width == 0 {
        seq![text]
    } else {
        let st = wrap_fold(words(text), width);
        let lines = if st.1.len() > 0 { st.0.push(st.1) } else { st.0 };
        if lines.len() == 0 {
            seq![Seq::<char>::empty()]
        } else {
            lines
        }
    }
}

/// Whether a character has the Unicode `White_Space` property.
fn is_white_char(c: char) -> (r: bool)
    ensures
        r == is_white(c),
{
    c == ' ' || ('\t' <= c && c <= '\r') || c == '\u{85}' || c == '\u{A0}' || c == '\u{1680}' || ('\u{2000}' <= c
        && c <= '\u{200A}') || c == '\u{2028}' || c == '\u{2029}' || c == '\u{202F}' || c == '\u{205F}' || c
        == '\u{3000}'
}

/// Number of bytes of a character in UTF-8.
pub(crate) fn char_utf8_len(c: char) -> (r: u128)
    ensures
        r == utf8_len(c),
        1 <= r <= 4,
{
    let code = c as u32;
    if code < 0x80 {
        1
    } else if code < 0x800 {
        2
    } else if code < 0x10000 {
        3
    } else {
        4
    }
}

/// The words of a text with their byte lengths.
fn split_words(text: &str) -> (r: (Vec<String>, Vec<u128>))
    ensures
        views(r.0@) == words(text@),
        r.1@.len() == r.0@.len(),
        forall|j: int| 0 <= j < r.1@.len() ==> r.1@[j] == byte_len(#[trigger] r.0@[j]@),
        forall|j: int| 0 <= j < r.1@.len() ==> #[trigger] r.1@[j] <= 4 * text@.len(),
{
    let n = text.unicode_len();
    let mut ws: Vec<String> = Vec::new();
    let mut lens: Vec<u128> = Vec::new();
    let mut cur = String::new();
    let mut cur_len: u128 = 0;
    let mut in_word = false;
    let mut i: usize = 0;
    assert(text@.take(0) =~= Seq::<char>::empty());
    assert(views(ws@) =~= Seq::<Seq<char>>::empty());
    while i < n
        invariant
            n == text@.len(),
            i <= n,
            in_word == (i > 0 && !is_white(text@[i - 1])),
            words(text@.take(i as int)) == if in_word { views(ws@).push(cur@) } else { views(ws@) },
            cur_len == byte_len(cur@),
            cur_len <= 4 * i,
            lens@.len() == ws@.len(),
            forall|j: int| 0 <= j < lens@.len() ==> lens@[j] == byte_len(#[trigger] ws@[j]@),
            forall|j: int| 0 <= j < lens@.len() ==> #[trigger] lens@[j] <= 4 * n,
        decreases n - i,
    {
        let c = text.get_char(i);
        let ghost t = text@.take(i + 1);
        proof {
            assert(t.drop_last() =~= text@.take(i as int));
            assert(t.last() == c);
            if i > 0 {
                assert(t[t.len() - 2] == text@[i - 1]);
            }
        }
        if is_white_char(c) {
            if in_word {
                ws.push(cur);
                lens.push(cur_len);
                cur = String::new();
                cur_len = 0;
                assert(views(ws@) =~= views(ws@.drop_last()).push(ws@.last()@));
            }
            in_word = false;
        } else {
            let l = char_utf8_len(c);
            if in_word {
                let ghost before = cur@;
                push_char(&mut cur, c);
                proof {
                    assert(cur@.drop_last() =~= before);
                    assert(cur@.last() == c);
                    assert(byte_len(cur@) == byte_len(before) + utf8_len(c));
                    let w = views(ws@).push(before);
                    assert(w.update(w.len() - 1, w.last().push(c)) =~= views(ws@).push(cur@));
                }
            } else {
                cur = String::new();
                push_char(&mut cur, c);
                proof {
                    assert(cur@ =~= seq![c]);
                    assert(cur@.drop_last() =~= Seq::<char>::empty());
                    assert(byte_len(Seq::<char>::empty()) == 0);
                    assert(cur@.last() == c);
                    assert(byte_len(cur@) == utf8_len(c));
                }
                cur_len = 0;
            }
            cur_len = cur_len + l;
            in_word = true;
        }
        i = i + 1;
    }
    assert(text@.take(n as int) =~= text@);
    if in_word {
        ws.push(cur);
        lens.push(cur_len);
        assert(views(ws@) =~= views(ws@.drop_last()).push(ws@.last()@));
    }
    (ws, lens)
}

/// Wrap text to fit within `width` bytes, preserving words.
pub fn wrap_text(text: &str, width: usize) -> (r: Vec<String>)
    ensures
        views(r@) == wrapped(text@, width as nat),
{
    if width == 0 {
        let mut r = Vec::new();
        r.push(String::from_str(text));
        assert(views(r@) =~= seq![text@]);
        return r;
    }
    let (ws, lens) = split_words(text);
    let text_len = text.unicode_len();
    let ghost n = text@.len();
    assert(n == text_len);
    let ghost all = views(ws@);
    let mut done: Vec<String> = Vec::new();
    let mut cur = String::new();
    let mut cur_len: u128 = 0;
    let mut k: usize = 0;
    assert(all.take(0) =~= Seq::<Seq<char>>::empty());
    assert(views(done@) =~= Seq::<Seq<char>>::empty());
    while k < ws.len()
        invariant
            width > 0,
            all == views(ws@),
            k <= ws.len(),
            lens@.len() == ws@.len(),
            forall|j: int| 0 <= j < lens@.len() ==> lens@[j] == byte_len(#[trigger] ws@[j]@),
            forall|j: int| 0 <= j < lens@.len() ==> #[trigger] lens@[j] <= 4 * n,
            n <= usize::MAX,
            wrap_fold(all.take(k as int), width as nat) == (views(done@), cur@),
            cur_len == byte_len(cur@),
            cur_len <= width || cur_len <= 4 * n,
        decreases ws.len() - k,
    {
        let ghost st = wrap_fold(all.take(k as int), width as nat);
        proof {
            assert(all.take(k + 1).drop_last() =~= all.take(k as int));
            assert(all.take(k + 1).last() == ws@[k as int]@);
        }
        let wlen = lens[k];
        let empty = cur.as_str().unicode_len() == 0;
        let potential = if empty {
            wlen
        } else {
            cur_len + 1 + wlen
        };
        if potential <= width as u128 {
            if empty {
                cur = ws[k].clone();
                assert(cur@ == ws@[k as int]@);
            } else {
                let ghost before = cur@;
                proof {
                    reveal_strlit(" ");
                    assert(" "@.drop_last() =~= Seq::<char>::empty());
                    assert(" "@.last() == ' ');
                    assert(byte_len(Seq::<char>::empty()) == 0);
                    assert(byte_len(" "@) == 1);
                }
                push_str(&mut cur, " ");
                push_str(&mut cur, ws[k].as_str());
                proof {
                    assert(cur@ =~= before + " "@ + ws@[k as int]@);
                    lemma_byte_len_concat(before, " "@);
                    lemma_byte_len_concat(before + " "@, ws@[k as int]@);
                }
            }
            cur_len = potential;
        } else {
            if !empty {
                done.push(cur);
                assert(views(done@) =~= views(done@.drop_last()).push(done@.last()@));
            }
            cur = ws[k].clone();
            assert(cur@ == ws@[k as int]@);
            cur_len = wlen;
        }
        assert(wrap_fold(all.take(k + 1), width as nat) == (views(done@), cur@));
        k = k + 1;
    }
    assert(all.take(ws.len() as int) =~= all);
    let ghost st = wrap_fold(all, width as nat);
    if cur.as_str().unicode_len() > 0 {
        done.push(cur);
        assert(views(done@) =~= views(done@.drop_last()).push(done@.last()@));
    }
    if done.len() == 0 {
        done.push(String::new());
        assert(views(done@) =~= seq![Seq::<char>::empty()]);
    }
    done
}

/// Bytes of two texts one after the other.
pub(crate) proof fn lemma_byte_len_concat(a: Seq<char>, b: Seq<char>)
    ensures
        byte_len(a + b) == byte_len(a) + byte_len(b),
    decreases b.len(),
{
    if b.len() > 0 {
        lemma_byte_len_concat(a, b.drop_last());
        assert((a + b).drop_last() =~= a + b.drop_last());
        assert((a + b).last() == b.last());
    } else {
        assert(a + b =~= a);
    }
}

/// A wrapped line fits the width, or is one of the words.
pub open spec fn line_fits(line: Seq<char>, ws: Seq<Seq<char>>, width: nat) -> bool {
    byte_len(line) <= width || ws.contains(line)
}

proof fn lemma_fold_lines_fit(ws: Seq<Seq<char>>, width: nat)
    ensures
        forall|i: int| 0 <= i < wrap_fold(ws, width).0.len() ==> line_fits(#[trigger] wrap_fold(ws, width).0[i], ws, width),
        wrap_fold(ws, width).1.len() > 0 ==> line_fits(wrap_fold(ws, width).1, ws, width),
    decreases ws.len(),
{
    if ws.len() > 0 {
        let front = ws.drop_last();
        let w = ws.last();
        lemma_fold_lines_fit(front, width);
        let st = wrap_fold(front, width);
        assert(ws == front.push(w));
        assert forall|x: Seq<char>| front.contains(x) implies ws.contains(x) by {
            let k = choose|k: int| 0 <= k < front.len() && front[k] == x;
            assert(ws[k] == x);
        }
        assert(ws[ws.len() - 1] == w);
        let cur = st.1;
        if cur.len() > 0 {
            reveal_strlit(" ");
            lemma_byte_len_concat(cur, " "@);
            lemma_byte_len_concat(cur + " "@, w);
            assert(byte_len(" "@) == 1) by {
                reveal_strlit(" ");
                assert(" "@.len() == 1);
                assert(" "@.last() == ' ');
                assert(" "@.drop_last() =~= Seq::<char>::empty());
                assert(byte_len(Seq::<char>::empty()) == 0);
                assert(utf8_len(' ') == 1);
            }
        }
        let nst = wrap_fold(ws, width);
        assert(nst == wrap_step(st, w, width));
        assert forall|i: int| 0 <= i < nst.0.len() implies line_fits(#[trigger] nst.0[i], ws, width) by {
            if i < st.0.len() {
                assert(nst.0[i] == st.0[i]);
                assert(line_fits(st.0[i], front, width));
            } else {
                assert(nst.0[i] == cur);
                assert(line_fits(cur, front, width));
            }
        }
    }
}

/// Wrapping to a positive width keeps every line within the width, except a
/// line holding a single word wider than it.
pub proof fn lemma_wrapped_lines_fit(text: Seq<char>, width: nat)
    requires
        width > 0,
    ensures
        forall|i: int|
            0 <= i < wrapped(text, width).len() ==> line_fits(#[trigger] wrapped(text, width)[i], words(text), width),
{
    let ws = words(text);
    lemma_fold_lines_fit(ws, width);
    let st = wrap_fold(ws, width);
    let lines = if st.1.len() > 0 { st.0.push(st.1) } else { st.0 };
    assert forall|i: int| 0 <= i < lines.len() implies line_fits(#[trigger] lines[i], ws, width) by {
        if i < st.0.len() {
            assert(lines[i] == st.0[i]);
        }
    }
    if lines.len() == 0 {
        assert(byte_len(Seq::<char>::empty()) == 0);
    }
}

/// The words of some lines, line after line.
pub open spec fn line_words(lines: Seq<Seq<char>>) -> Seq<Seq<char>>
    decreases lines.len(),
{
    if lines.len() == 0 {
        Seq::empty()
    } else {
        line_words(lines.drop_last()) + words(lines.last())
    }
}

/// A word: some characters, none of them white space.
pub open spec fn is_word(w: Seq<char>) -> bool {
    w.len() > 0 && forall|j: int| 0 <= j < w.len() ==> !is_white(#[trigger] w[j])
}

/// Every word of a text is a word.
proof fn lemma_words_are_words(s: Seq<char>)
    ensures
        forall|i: int| 0 <= i < words(s).len() ==> is_word(#[trigger] words(s)[i]),
    decreases s.len(),
{
    if s.len() > 0 {
        let p = s.drop_last();
        lemma_words_are_words(p);
        let w = words(p);
        let c = s.last();
        if !is_white(c) {
            if s.len() >= 2 && !is_white(s[s.len() - 2]) {
                lemma_words_of_text_ending_in_word(p);
                let last = w.last().push(c);
                assert(is_word(last)) by {
                    assert forall|j: int| 0 <= j < last.len() implies !is_white(#[trigger] last[j]) by {
                        if j < w.last().len() {
                            assert(is_word(w[w.len() - 1]));
                        }
                    }
                }
                assert forall|i: int| 0 <= i < words(s).len() implies is_word(#[trigger] words(s)[i]) by {
                    if i < w.len() - 1 {
                        assert(words(s)[i] == w[i]);
                    }
                }
            } else {
                assert(is_word(seq![c]));
                assert forall|i: int| 0 <= i < words(s).len() implies is_word(#[trigger] words(s)[i]) by {
                    if i < w.len() {
                        assert(words(s)[i] == w[i]);
                    }
                }
            }
        }
    }
}

/// A text whose last character is not white space has words.
proof fn lemma_words_of_text_ending_in_word(s: Seq<char>)
    requires
        s.len() > 0,
        !is_white(s.last()),
    ensures
        words(s).len() > 0,
    decreases s.len(),
{
    if s.len() >= 2 && !is_white(s[s.len() - 2]) {
        let p = s.drop_last();
        assert(p.last() == s[s.len() - 2]);
        lemma_words_of_text_ending_in_word(p);
    }
}

/// A word followed by more word characters stays one word: the words of
/// `a`, a space and the first `k` characters of the word `w`.
proof fn lemma_words_after_space(a: Seq<char>, w: Seq<char>, k: int)
    requires
        is_word(w),
        0 <= k <= w.len(),
    ensures
        words(a + " "@ + w.take(k)) == if k == 0 { words(a) } else { words(a).push(w.take(k)) },
    decreases k,
{
    reveal_strlit(" ");
    let t = a + " "@ + w.take(k);
    if k == 0 {
        assert(t.drop_last() =~= a);
        assert(t.last() == ' ');
        assert(is_white(' '));
    } else {
        lemma_words_after_space(a, w, k - 1);
        assert(t.drop_last() =~= a + " "@ + w.take(k - 1));
        assert(t.last() == w[k - 1]);
        assert(!is_white(w[k - 1]));
        if k == 1 {
            assert(t[t.len() - 2] == ' ');
            assert(w.take(1) =~= seq![w[0]]);
        } else {
            assert(t[t.len() - 2] == w[k - 2]);
            let prev = words(a).push(w.take(k - 1));
            assert(w.take(k - 1).push(w[k - 1]) =~= w.take(k));
            assert(prev.update(prev.len() - 1, prev.last().push(w[k - 1])) =~= words(a).push(w.take(k)));
        }
    }
}

/// The words of a word are that word alone.
proof fn lemma_words_of_word(w: Seq<char>, k: int)
    requires
        is_word(w),
        0 < k <= w.len(),
    ensures
        words(w.take(k)) == seq![w.take(k)],
    decreases k,
{
    let t = w.take(k);
    assert(t.last() == w[k - 1]);
    assert(!is_white(w[k - 1]));
    if k == 1 {
        assert(t.drop_last() =~= Seq::<char>::empty());
        assert(words(Seq::<char>::empty()) =~= Seq::<Seq<char>>::empty());
        assert(t =~= seq![w[0]]);
        assert(Seq::<Seq<char>>::empty().push(seq![w[0]]) =~= seq![t]);
    } else {
        lemma_words_of_word(w, k - 1);
        assert(t.drop_last() =~= w.take(k - 1));
        assert(t[t.len() - 2] == w[k - 2]);
        let prev = seq![w.take(k - 1)];
        assert(w.take(k - 1).push(w[k - 1]) =~= t);
        assert(prev.update(0, prev.last().push(w[k - 1])) =~= seq![t]);
    }
}

/// Greedy wrapping keeps the words: the words of the finished lines, then
/// those of the current line, are the words wrapped.
proof fn lemma_fold_keeps_words(ws: Seq<Seq<char>>, width: nat)
    requires
        forall|i: int| 0 <= i < ws.len() ==> is_word(#[trigger] ws[i]),
    ensures
        line_words(wrap_fold(ws, width).0) + words(wrap_fold(ws, width).1) == ws,
    decreases ws.len(),
{
    if ws.len() == 0 {
        assert(words(Seq::<char>::empty()) =~= Seq::<Seq<char>>::empty());
        assert(line_words(Seq::<Seq<char>>::empty()) + Seq::<Seq<char>>::empty() =~= ws);
    } else {
        let front = ws.drop_last();
        let w = ws.last();
        assert forall|i: int| 0 <= i < front.len() implies is_word(#[trigger] front[i]) by {
            assert(front[i] == ws[i]);
        }
        assert(is_word(ws[ws.len() - 1]));
        lemma_fold_keeps_words(front, width);
        let st = wrap_fold(front, width);
        let done = st.0;
        let cur = st.1;
        let nst = wrap_fold(ws, width);
        assert(nst == wrap_step(st, w, width));
        assert(w.take(w.len() as int) =~= w);
        lemma_words_of_word(w, w.len() as int);
        let empty = Seq::<char>::empty();
        assert(words(empty) =~= Seq::<Seq<char>>::empty());
        if nst.1 == w && nst.0 == done {
            if cur.len() == 0 {
                assert(cur =~= empty);
            }
            assert(line_words(done) + seq![w] =~= (line_words(done) + words(cur)).push(w));
        } else if nst.0 == done {
            lemma_words_after_space(cur, w, w.len() as int);
            assert(nst.1 == cur + " "@ + w);
            assert(line_words(done) + words(cur).push(w) =~= (line_words(done) + words(cur)).push(w));
        } else {
            assert(nst.0 == done.push(cur));
            assert(nst.0.drop_last() =~= done);
            assert(line_words(nst.0) == line_words(done) + words(cur));
            assert(line_words(nst.0) + seq![w] =~= (line_words(done) + words(cur)).push(w));
        }
        assert(ws =~= front.push(w));
    }
}

/// Wrapping keeps the words: the words of the wrapped lines, line after
/// line, are the words of the text, in order.
pub proof fn lemma_wrapped_keeps_words(text: Seq<char>, width: nat)
    ensures
        line_words(wrapped(text, width)) == words(text),
{
    let empty = Seq::<char>::empty();
    assert(words(empty) =~= Seq::<Seq<char>>::empty());
    if width == 0 {
        let lines = seq![text];
        let none = Seq::<Seq<char>>::empty();
        assert(lines.drop_last() =~= none);
        assert(line_words(none) == none);
        assert(lines.last() == text);
        assert(none + words(text) =~= words(text));
        assert(line_words(lines) == line_words(none) + words(text));
    } else {
        let ws = words(text);
        lemma_words_are_words(text);
        lemma_fold_keeps_words(ws, width);
        let st = wrap_fold(ws, width);
        if st.1.len() > 0 {
            let lines = st.0.push(st.1);
            assert(lines.drop_last() =~= st.0);
        } else {
            assert(st.1 =~= empty);
            assert(line_words(st.0) + Seq::<Seq<char>>::empty() =~= line_words(st.0));
            if st.0.len() == 0 {
                let lines = seq![empty];
                let none = Seq::<Seq<char>>::empty();
                assert(lines.drop_last() =~= none);
                assert(line_words(none) == none);
                assert(lines.last() == empty);
                assert(line_words(lines) == line_words(none) + words(empty));
                assert(none + none =~= none);
            }
        }
    }
}

} // verus!
