//! Search query editing and fuzzy search over debt items.
use vstd::prelude::*;
use fuzzy_matcher::FuzzyMatcher;
use crate::item::{UnifiedDebtItem, UnifiedAnalysis};
use crate::ordering::{SortKey, KeyView, sorted_by_keys, permute, stable_sort_positions, stable_order, lemma_sorted_by_keys_ordered, lemma_key_le_first};
use crate::text::push_char;
use crate::wrapping::{byte_len, char_utf8_len, lemma_byte_len_concat, utf8_len};

verus! {

/// Byte offset `b` of the text `s` is where its `k`-th character starts
/// (or its end, for `k` its length).
pub open spec fn char_boundary(s: Seq<char>, b: nat, k: int) -> bool {
    0 <= k <= s.len() && byte_len(s.take(k)) == b
}

/// Byte offset `b` falls on a character boundary of `s`.
pub open spec fn on_boundary(s: Seq<char>, b: nat) -> bool {
    exists|k: int| char_boundary(s, b, k)
}

/// The character whose encoding starts at byte offset `b` of `s`.
pub open spec fn char_index(s: Seq<char>, b: nat) -> int {
    choose|k: int| char_boundary(s, b, k)
}

/// Search query text after typing `c` at byte offset `cursor` (a boundary).
pub open spec fn typed(text: Seq<char>, cursor: nat, c: char) -> Seq<char> {
    text.insert(char_index(text, cursor), c)
}

/// Search query text without the character starting at byte offset `b`.
pub open spec fn removed_at(text: Seq<char>, b: nat) -> Seq<char> {
    text.remove(char_index(text, b))
}

/// One more character adds its width to the encoded length of a prefix.
proof fn lemma_utf8_take_step(s: Seq<char>, i: int)
    requires
        0 <= i < s.len(),
    ensures
        byte_len(s.take(i + 1)) == byte_len(s.take(i)) + utf8_len(s[i]),
{
    assert(s.take(i + 1).drop_last() =~= s.take(i));
}

/// Longer prefixes take more bytes.
proof fn lemma_utf8_take_increasing(s: Seq<char>, i: int, j: int)
    requires
        0 <= i < j <= s.len(),
    ensures
        byte_len(s.take(i)) < byte_len(s.take(j)),
    decreases j - i,
{
    lemma_utf8_take_step(s, j - 1);
    if i < j - 1 {
        lemma_utf8_take_increasing(s, i, j - 1);
    }
}

/// Each byte offset starts at most one character.
proof fn lemma_char_index_unique(s: Seq<char>, b: nat, k: int)
    requires
        char_boundary(s, b, k),
    ensures
        char_index(s, b) == k,
{
    let j = char_index(s, b);
    if j < k {
        lemma_utf8_take_increasing(s, j, k);
    } else if k < j {
        lemma_utf8_take_increasing(s, k, j);
    }
}

/// Inserting a character adds its width; the prefix before it keeps its
/// length.
proof fn lemma_utf8_insert(s: Seq<char>, k: int, c: char)
    requires
        0 <= k <= s.len(),
    ensures
        byte_len(s.insert(k, c)) == byte_len(s) + utf8_len(c),
{
    let single = seq![c];
    assert(single.drop_last() =~= Seq::<char>::empty());
    assert(byte_len(Seq::<char>::empty()) == 0);
    assert(single.len() == 1 && single.last() == c);
    assert(byte_len(single) == byte_len(single.drop_last()) + utf8_len(single.last()));
    lemma_byte_len_concat(s.take(k), single);
    lemma_byte_len_concat(s.take(k) + single, s.skip(k));
    lemma_byte_len_concat(s.take(k), s.skip(k));
    assert(s.insert(k, c) =~= s.take(k) + single + s.skip(k));
    assert(s =~= s.take(k) + s.skip(k));
}

/// Removing a character takes its width away, and keeps at least the bytes
/// before it.
proof fn lemma_utf8_remove(s: Seq<char>, k: int)
    requires
        0 <= k < s.len(),
    ensures
        byte_len(s.remove(k)) + utf8_len(s[k]) == byte_len(s),
        byte_len(s.take(k)) <= byte_len(s.remove(k)),
{
    lemma_byte_len_concat(s.take(k), s.skip(k + 1));
    lemma_byte_len_concat(s.take(k + 1), s.skip(k + 1));
    lemma_utf8_take_step(s, k);
    assert(s.remove(k) =~= s.take(k) + s.skip(k + 1));
    assert(s =~= s.take(k + 1) + s.skip(k + 1));
}

/// Length in bytes of a string.
///
/// Calls `str::len`, documented to give the length in bytes of the string's
/// UTF-8 encoding, in which each character takes the bytes
/// `char::len_utf8` documents: one below U+0080, two below U+0800, three
/// below U+10000, four above.
#[verifier::external_body]
fn str_byte_len(s: &str) -> (r: usize)
    ensures
        r == byte_len(s@),
{
    s.len()
}

/// Search query being edited, with a cursor counted in bytes of the query's
/// UTF-8 encoding.
#[derive(Debug)]
pub struct SearchState {
    query: Vec<char>,
    cursor_position: usize,
    bytes: usize,
}

impl SearchState {
    #[verifier::type_invariant]
    spec fn cursor_in_query(self) -> bool {
        &&& self.bytes == byte_len(self.query@)
        &&& self.cursor_position <= self.bytes
    }

    /// Characters of the query.
    pub closed spec fn text(self) -> Seq<char> {
        self.query@
    }

    /// Cursor position in bytes.
    pub closed spec fn cursor(self) -> nat {
        self.cursor_position as nat
    }

    /// Create new search state.
    pub fn new() -> (r: Self)
        ensures
            r.text() == Seq::<char>::empty(),
            r.cursor() == 0,
    {
        SearchState { query: Vec::new(), cursor_position: 0, bytes: 0 }
    }

    /// Get current search query.
    pub fn query(&self) -> (r: String)
        ensures
            r@ == self.text(),
    {
        let mut s = String::new();
        let mut i: usize = 0;
        while i < self.query.len()
            invariant
                i <= self.query.len(),
                s@ =~= self.query@.take(i as int),
            decreases self.query.len() - i,
        {
            push_char(&mut s, self.query[i]);
            proof {
                assert(self.query@.take(i + 1) =~= self.query@.take(i as int).push(self.query@[i as int]));
            }
            i = i + 1;
        }
        proof {
            assert(self.query@.take(self.query.len() as int) =~= self.query@);
        }
        s
    }

    /// Set search query; the cursor moves to its end.
    pub fn set_query(&mut self, query: String)
        ensures
            final(self).text() == query@,
            final(self).cursor() == byte_len(query@),
    {
        let bytes = str_byte_len(query.as_str());
        let n = query.as_str().unicode_len();
        let mut chars: Vec<char> = Vec::new();
        let mut i: usize = 0;
        while i < n
            invariant
                n == query@.len(),
                i <= n,
                chars@ =~= query@.take(i as int),
            decreases n - i,
        {
            chars.push(query.as_str().get_char(i));
            proof {
                assert(query@.take(i + 1) =~= query@.take(i as int).push(query@[i as int]));
            }
            i = i + 1;
        }
        proof {
            assert(query@.take(n as int) =~= query@);
        }
        *self = SearchState { query: chars, cursor_position: bytes, bytes };
    }

    /// Clear search query.
    pub fn clear(&mut self)
        ensures
            final(self).text() == Seq::<char>::empty(),
            final(self).cursor() == 0,
    {
        *self = SearchState { query: Vec::new(), cursor_position: 0, bytes: 0 };
    }

    /// The character whose encoding starts at byte offset `b`, if one does
    /// (or the query's length, for its end).
    fn index_at(&self, b: usize) -> (r: Option<usize>)
        ensures
            match r {
                Some(k) => char_boundary(self.text(), b as nat, k as int),
                None => !on_boundary(self.text(), b as nat),
            },
    {
        proof {
            use_type_invariant(self);
        }
        let ghost s = self.query@;
        let mut acc: usize = 0;
        let mut i: usize = 0;
        while i < self.query.len() && acc < b
            invariant
                s == self.query@,
                self.bytes == byte_len(s),
                i <= s.len(),
                acc == byte_len(s.take(i as int)),
                i > 0 ==> byte_len(s.take(i - 1)) < b,
            decreases s.len() - i,
        {
            proof {
                lemma_utf8_take_step(s, i as int);
                if i + 1 < s.len() {
                    lemma_utf8_take_increasing(s, i + 1, s.len() as int);
                }
                assert(s.take(s.len() as int) =~= s);
            }
            acc = acc + char_utf8_len(self.query[i]) as usize;
            i = i + 1;
        }
        if acc == b {
            Some(i)
        } else {
            proof {
                assert forall|k: int| !char_boundary(s, b as nat, k) by {
                    if 0 <= k <= s.len() {
                        if k < i {
                            if k < i - 1 {
                                lemma_utf8_take_increasing(s, k, i - 1);
                            }
                        } else if k > i {
                            lemma_utf8_take_increasing(s, i as int, k);
                        } else {
                            assert(s.take(s.len() as int) =~= s);
                        }
                        if i == s.len() && k <= i {
                            if k < i {
                                lemma_utf8_take_increasing(s, k, i as int);
                            }
                        }
                    }
                }
            }
            None
        }
    }

    /// Whether a character can be typed at the cursor: the cursor is on a
    /// character boundary and the query has room for four more bytes.
    pub fn can_insert(&self) -> (r: bool)
        ensures
            r == (on_boundary(self.text(), self.cursor()) && byte_len(self.text()) + 4 <= usize::MAX),
    {
        proof {
            use_type_invariant(self);
        }
        self.index_at(self.cursor_position).is_some() && self.bytes <= usize::MAX - 4
    }

    /// Whether backspace can delete before the cursor: at the start, or with
    /// the byte before the cursor on a character boundary.
    pub fn can_delete_back(&self) -> (r: bool)
        ensures
            r == (self.cursor() > 0 ==> on_boundary(self.text(), (self.cursor() - 1) as nat)),
    {
        self.cursor_position == 0 || self.index_at(self.cursor_position - 1).is_some()
    }

    /// Whether the delete key can delete at the cursor: at the end, or with
    /// the cursor on a character boundary.
    pub fn can_delete_forward(&self) -> (r: bool)
        ensures
            r == (self.cursor() < byte_len(self.text()) ==> on_boundary(self.text(), self.cursor())),
    {
        proof {
            use_type_invariant(self);
        }
        self.cursor_position >= self.bytes || self.index_at(self.cursor_position).is_some()
    }

    /// Insert character at the cursor (a character boundary); the cursor
    /// moves one byte on.
    pub fn insert_char(&mut self, c: char)
        requires
            on_boundary(old(self).text(), old(self).cursor()),
            byte_len(old(self).text()) + 4 <= usize::MAX,
        ensures
            final(self).text() == typed(old(self).text(), old(self).cursor(), c),
            final(self).cursor() == old(self).cursor() + 1,
    {
        proof {
            use_type_invariant(&*self);
        }
        match self.index_at(self.cursor_position) {
            Some(k) => {
                proof {
                    lemma_char_index_unique(self.query@, self.cursor_position as nat, k as int);
                    lemma_utf8_insert(self.query@, k as int, c);
                }
                let w = char_utf8_len(c) as usize;
                let (mut q, pos, bytes) = self.take_parts();
                q.insert(k, c);
                *self = SearchState { query: q, cursor_position: pos + 1, bytes: bytes + w };
            },
            None => {},
        }
    }

    /// Moves the query, cursor and byte count out, leaving an empty search
    /// behind.
    fn take_parts(&mut self) -> (r: (Vec<char>, usize, usize))
        ensures
            r.0@ == old(self).text(),
            r.1 == old(self).cursor(),
            r.2 == byte_len(r.0@),
            r.1 <= r.2,
    {
        let mut tmp = SearchState::new();
        std::mem::swap(self, &mut tmp);
        proof {
            use_type_invariant(&tmp);
        }
        let SearchState { query, cursor_position, bytes } = tmp;
        (query, cursor_position, bytes)
    }

    /// Delete the character before the cursor (backspace): the one whose
    /// encoding starts a byte before the cursor; the cursor moves one byte
    /// back.
    pub fn delete_char(&mut self)
        requires
            old(self).cursor() > 0 ==> on_boundary(old(self).text(), (old(self).cursor() - 1) as nat),
        ensures
            old(self).cursor() > 0 ==> final(self).text() == removed_at(old(self).text(), (old(self).cursor() - 1) as nat)
                && final(self).cursor() == old(self).cursor() - 1,
            old(self).cursor() == 0 ==> final(self).text() == old(self).text() && final(self).cursor() == 0,
    {
        proof {
            use_type_invariant(&*self);
        }
        if self.cursor_position > 0 {
            match self.index_at(self.cursor_position - 1) {
                Some(k) => {
                    proof {
                        let s = self.query@;
                        lemma_char_index_unique(s, (self.cursor_position - 1) as nat, k as int);
                        if k as int == s.len() {
                            assert(s.take(s.len() as int) =~= s);
                        }
                        assert(k < s.len());
                        lemma_utf8_remove(s, k as int);
                    }
                    let w = char_utf8_len(self.query[k]) as usize;
                    let (mut q, pos, bytes) = self.take_parts();
                    q.remove(k);
                    *self = SearchState { query: q, cursor_position: pos - 1, bytes: bytes - w };
                },
                None => {},
            }
        }
    }

    /// Delete the character at the cursor (delete key); the cursor stays.
    pub fn delete_char_forward(&mut self)
        requires
            old(self).cursor() < byte_len(old(self).text()) ==> on_boundary(old(self).text(), old(self).cursor()),
        ensures
            old(self).cursor() < byte_len(old(self).text()) ==> final(self).text() == removed_at(
                old(self).text(),
                old(self).cursor(),
            ),
            old(self).cursor() >= byte_len(old(self).text()) ==> final(self).text() == old(self).text(),
            final(self).cursor() == old(self).cursor(),
    {
        proof {
            use_type_invariant(&*self);
        }
        if self.cursor_position < self.bytes {
            match self.index_at(self.cursor_position) {
                Some(k) => {
                    proof {
                        let s = self.query@;
                        lemma_char_index_unique(s, self.cursor_position as nat, k as int);
                        if k as int == s.len() {
                            assert(s.take(s.len() as int) =~= s);
                        }
                        assert(k < s.len());
                        lemma_utf8_remove(s, k as int);
                    }
                    let w = char_utf8_len(self.query[k]) as usize;
                    let (mut q, pos, bytes) = self.take_parts();
                    q.remove(k);
                    *self = SearchState { query: q, cursor_position: pos, bytes: bytes - w };
                },
                None => {},
            }
        }
    }

    /// Move cursor one byte left.
    pub fn move_cursor_left(&mut self)
        ensures
            final(self).text() == old(self).text(),
            final(self).cursor() == if old(self).cursor() > 0 { old(self).cursor() - 1 } else { 0 },
    {
        proof {
            use_type_invariant(&*self);
        }
        if self.cursor_position > 0 {
            self.cursor_position = self.cursor_position - 1;
        }
    }

    /// Move cursor one byte right, up to the end of the query.
    pub fn move_cursor_right(&mut self)
        ensures
            final(self).text() == old(self).text(),
            final(self).cursor() == if old(self).cursor() < byte_len(old(self).text()) {
                old(self).cursor() + 1
            } else {
                old(self).cursor()
            },
    {
        proof {
            use_type_invariant(&*self);
        }
        if self.cursor_position < self.bytes {
            self.cursor_position = self.cursor_position + 1;
        }
    }

    /// Move cursor to start.
    pub fn move_cursor_home(&mut self)
        ensures
            final(self).text() == old(self).text(),
            final(self).cursor() == 0,
    {
        proof {
            use_type_invariant(&*self);
        }
        self.cursor_position = 0;
    }

    /// Move cursor to the end of the query.
    pub fn move_cursor_end(&mut self)
        ensures
            final(self).text() == old(self).text(),
            final(self).cursor() == byte_len(old(self).text()),
    {
        proof {
            use_type_invariant(&*self);
        }
        self.cursor_position = self.bytes;
    }

    /// Get cursor position (in bytes).
    pub fn cursor_position(&self) -> (r: usize)
        ensures
            r == self.cursor(),
    {
        self.cursor_position
    }

    /// Whether the query is empty.
    pub fn is_empty(&self) -> (r: bool)
        ensures
            r == (self.text().len() == 0),
    {
        self.query.len() == 0
    }
}

/// Score that the skim fuzzy matcher (`SkimMatcherV2` with its default
/// settings) gives `choice` for `pattern`; `None` when it does not match.
pub uninterp spec fn skim_fuzzy_score(choice: Seq<char>, pattern: Seq<char>) -> Option<i64>;

/// Fuzzy match score of `choice` against `pattern`.
///
/// Calls `FuzzyMatcher::fuzzy_match` of `fuzzy_matcher::skim::SkimMatcherV2`
/// built by `Default`. The contract claims that the result is a function of the
/// two texts alone, and, as the crate's `fuzzy` shows, that an empty pattern
/// matches with score 0. How the score is computed is not stated.
#[verifier::external_body]
fn fuzzy_match(choice: &str, pattern: &str) -> (r: Option<i64>)
    ensures
        r == skim_fuzzy_score(choice@, pattern@),
        pattern@.len() == 0 ==> r == Some(0i64),
{
    fuzzy_matcher::skim::SkimMatcherV2::default().fuzzy_match(choice, pattern)
}

/// The search score of an item: the first match among its file path, its
/// function name and its recommended action.
pub open spec fn item_match_score(item: UnifiedDebtItem, query: Seq<char>) -> Option<i64> {
    let f = skim_fuzzy_score(item.location.file@, query);
    let g = skim_fuzzy_score(item.location.function@, query);
    let h = skim_fuzzy_score(item.primary_action@, query);
    if f is Some {
        f
    } else if g is Some {
        g
    } else {
        h
    }
}

/// An item's search score is its file path's when the path matches, else its
/// function name's when that matches, else its recommended action's.
pub proof fn lemma_item_match_score_prefers_file(item: UnifiedDebtItem, query: Seq<char>)
    ensures
        skim_fuzzy_score(item.location.file@, query) is Some ==> item_match_score(item, query) == skim_fuzzy_score(
            item.location.file@,
            query,
        ),
        skim_fuzzy_score(item.location.file@, query) is None && skim_fuzzy_score(item.location.function@, query) is Some
            ==> item_match_score(item, query) == skim_fuzzy_score(item.location.function@, query),
        skim_fuzzy_score(item.location.file@, query) is None && skim_fuzzy_score(item.location.function@, query) is None
            ==> item_match_score(item, query) == skim_fuzzy_score(item.primary_action@, query),
{
}

/// Positions whose score is present, in increasing order.
pub open spec fn matched_positions(scores: Seq<Option<i64>>) -> Seq<usize>
    decreases scores.len(),
{
    if scores.len() == 0 {
        Seq::empty()
    } else {
        let prev = matched_positions(scores.drop_last());
        if scores.last() is Some {
            prev.push((scores.len() - 1) as usize)
        } else {
            prev
        }
    }
}

/// Sort key of a matched position: higher score first.
pub open spec fn match_key(scores: Seq<Option<i64>>, pos: usize) -> KeyView {
    (-(scores[pos as int].unwrap() as int), Seq::empty(), 0, Seq::empty(), 0)
}

/// Matched positions, best score first, equal scores in position order.
pub open spec fn ranked_matches(scores: Seq<Option<i64>>) -> Seq<usize> {
    let pos = matched_positions(scores);
    sorted_by_keys(pos, pos.map_values(|p: usize| match_key(scores, p)))
}

/// Every item position, in order.
pub open spec fn all_positions(n: nat) -> Seq<usize> {
    Seq::new(n, |i: int| i as usize)
}

/// Search scores of all items.
pub open spec fn item_scores(items: Seq<UnifiedDebtItem>, query: Seq<char>) -> Seq<Option<i64>> {
    items.map_values(|item: UnifiedDebtItem| item_match_score(item, query))
}

/// Positions of the items that match a query, best match first; every
/// position when the query is empty.
pub open spec fn search_results(items: Seq<UnifiedDebtItem>, query: Seq<char>) -> Seq<usize> {
    if query.len() == 0 {
        all_positions(items.len())
    } else {
        ranked_matches(item_scores(items, query))
    }
}

proof fn lemma_matched_positions_bounded(scores: Seq<Option<i64>>)
    requires
        scores.len() <= usize::MAX,
    ensures
        forall|m: int| 0 <= m < matched_positions(scores).len() ==> {
            let p = #[trigger] matched_positions(scores)[m];
            p < scores.len() && scores[p as int] is Some
        },
    decreases scores.len(),
{
    if scores.len() > 0 {
        lemma_matched_positions_bounded(scores.drop_last());
        let prev = matched_positions(scores.drop_last());
        assert forall|m: int| 0 <= m < matched_positions(scores).len() implies {
            let p = #[trigger] matched_positions(scores)[m];
            p < scores.len() && scores[p as int] is Some
        } by {
            if m < prev.len() {
                let p = prev[m];
                assert(matched_positions(scores)[m] == p);
                assert(scores.drop_last()[p as int] == scores[p as int]);
            } else {
                assert(scores.last() is Some);
                assert(matched_positions(scores)[m] == (scores.len() - 1) as usize);
            }
        }
    }
}

/// Every position with a score is a matched position, and there are no more
/// matched positions than scores.
proof fn lemma_matched_positions_complete(scores: Seq<Option<i64>>)
    requires
        scores.len() <= usize::MAX,
    ensures
        matched_positions(scores).len() <= scores.len(),
        forall|p: int| 0 <= p < scores.len() && scores[p] is Some ==> matched_positions(scores).contains(p as usize),
    decreases scores.len(),
{
    if scores.len() > 0 {
        let front = scores.drop_last();
        lemma_matched_positions_complete(front);
        let prev = matched_positions(front);
        assert forall|p: int| 0 <= p < scores.len() && scores[p] is Some implies matched_positions(scores).contains(
            p as usize,
        ) by {
            if p < scores.len() - 1 {
                assert(front[p] == scores[p]);
                let k = choose|k: int| 0 <= k < prev.len() && prev[k] == p as usize;
                assert(matched_positions(scores)[k] == p as usize);
            } else {
                assert(matched_positions(scores)[prev.len() as int] == p as usize);
            }
        }
    }
}

/// Matched positions are increasing.
proof fn lemma_matched_positions_increasing(scores: Seq<Option<i64>>)
    requires
        scores.len() <= usize::MAX,
    ensures
        forall|a: int, b: int|
            0 <= a < b < matched_positions(scores).len() ==> #[trigger] matched_positions(scores)[a]
                < #[trigger] matched_positions(scores)[b],
    decreases scores.len(),
{
    if scores.len() > 0 {
        let front = scores.drop_last();
        lemma_matched_positions_increasing(front);
        lemma_matched_positions_bounded(front);
        let prev = matched_positions(front);
        let r = matched_positions(scores);
        assert forall|a: int, b: int| 0 <= a < b < r.len() implies #[trigger] r[a] < #[trigger] r[b] by {
            assert(r[a] == prev[a]);
            if b < prev.len() {
                assert(r[b] == prev[b]);
            }
        }
    }
}

/// Ranking keeps exactly the positions that have a score, best score first:
/// along the result scores never increase, and equal scores keep their
/// positions' order.
pub proof fn lemma_ranked_matches_best_first(scores: Seq<Option<i64>>)
    requires
        scores.len() <= usize::MAX,
    ensures
        forall|m: int|
            0 <= m < ranked_matches(scores).len() ==> #[trigger] ranked_matches(scores)[m] < scores.len()
                && scores[ranked_matches(scores)[m] as int] is Some,
        forall|i: int, j: int|
            0 <= i < j < ranked_matches(scores).len() ==> scores[#[trigger] ranked_matches(scores)[i] as int].unwrap()
                >= scores[#[trigger] ranked_matches(scores)[j] as int].unwrap(),
        forall|p: int| 0 <= p < scores.len() && scores[p] is Some ==> ranked_matches(scores).contains(p as usize),
        forall|i: int, j: int|
            0 <= i < j < ranked_matches(scores).len() && scores[#[trigger] ranked_matches(scores)[i] as int]
                == scores[#[trigger] ranked_matches(scores)[j] as int] ==> ranked_matches(scores)[i] < ranked_matches(
                scores,
            )[j],
{
    let pos = matched_positions(scores);
    lemma_matched_positions_increasing(scores);
    let keys = pos.map_values(|p: usize| match_key(scores, p));
    lemma_matched_positions_bounded(scores);
    lemma_matched_positions_complete(scores);
    lemma_sorted_by_keys_ordered(pos, keys);
    let perm = stable_order(keys);
    let r = ranked_matches(scores);
    assert(r == sorted_by_keys(pos, keys));
    assert forall|m: int| 0 <= m < r.len() implies #[trigger] r[m] < scores.len() && scores[r[m] as int] is Some by {
        assert(r[m] == pos[perm[m]]);
    }
    assert forall|i: int, j: int| 0 <= i < j < r.len() implies scores[#[trigger] r[i] as int].unwrap()
        >= scores[#[trigger] r[j] as int].unwrap() by {
        lemma_key_le_first(keys[perm[i]], keys[perm[j]]);
        assert(r[i] == pos[perm[i]]);
        assert(r[j] == pos[perm[j]]);
    }
    assert forall|i: int, j: int|
        0 <= i < j < r.len() && scores[#[trigger] r[i] as int] == scores[#[trigger] r[j] as int] implies r[i] < r[j] by {
        assert(r[i] == pos[perm[i]]);
        assert(r[j] == pos[perm[j]]);
        assert(keys[perm[i]] == match_key(scores, pos[perm[i]]));
        assert(keys[perm[j]] == match_key(scores, pos[perm[j]]));
    }
    assert forall|p: int| 0 <= p < scores.len() && scores[p] is Some implies r.contains(p as usize) by {
        let k = choose|k: int| 0 <= k < pos.len() && pos[k] == p as usize;
        assert(perm.contains(k));
        let m = choose|m: int| 0 <= m < perm.len() && perm[m] == k;
        assert(r[m] == p as usize);
    }
}

/// For a query with text, the search results are exactly the items that
/// match it, best match first: along the results the match score never
/// increases, and equal scores keep the items' order.
pub proof fn lemma_search_results_best_first(items: Seq<UnifiedDebtItem>, query: Seq<char>)
    requires
        query.len() > 0,
        items.len() <= usize::MAX,
    ensures
        forall|m: int|
            0 <= m < search_results(items, query).len() ==> #[trigger] search_results(items, query)[m] < items.len()
                && item_match_score(items[search_results(items, query)[m] as int], query) is Some,
        forall|i: int, j: int|
            0 <= i < j < search_results(items, query).len() ==> item_match_score(
                items[#[trigger] search_results(items, query)[i] as int],
                query,
            ).unwrap() >= item_match_score(items[#[trigger] search_results(items, query)[j] as int], query).unwrap(),
        forall|p: int|
            0 <= p < items.len() && item_match_score(items[p], query) is Some ==> search_results(items, query).contains(
                p as usize,
            ),
        forall|i: int, j: int|
            0 <= i < j < search_results(items, query).len() && item_match_score(
                items[#[trigger] search_results(items, query)[i] as int],
                query,
            ) == item_match_score(items[#[trigger] search_results(items, query)[j] as int], query) ==> search_results(
                items,
                query,
            )[i] < search_results(items, query)[j],
{
    let scores = item_scores(items, query);
    lemma_ranked_matches_best_first(scores);
    let r = search_results(items, query);
    assert(r == ranked_matches(scores));
    assert forall|m: int| 0 <= m < r.len() implies #[trigger] r[m] < items.len() && item_match_score(
        items[r[m] as int],
        query,
    ) is Some by {
        assert(scores[r[m] as int] == item_match_score(items[r[m] as int], query));
    }
    assert forall|i: int, j: int| 0 <= i < j < r.len() implies item_match_score(
        items[#[trigger] r[i] as int],
        query,
    ).unwrap() >= item_match_score(items[#[trigger] r[j] as int], query).unwrap() by {
        assert(scores[r[i] as int] == item_match_score(items[r[i] as int], query));
        assert(scores[r[j] as int] == item_match_score(items[r[j] as int], query));
    }
    assert forall|p: int| 0 <= p < items.len() && item_match_score(items[p], query) is Some implies r.contains(
        p as usize,
    ) by {
        assert(scores[p] == item_match_score(items[p], query));
    }
    assert forall|i: int, j: int|
        0 <= i < j < r.len() && item_match_score(items[#[trigger] r[i] as int], query) == item_match_score(
            items[#[trigger] r[j] as int],
            query,
        ) implies r[i] < r[j] by {
        assert(scores[r[i] as int] == item_match_score(items[r[i] as int], query));
        assert(scores[r[j] as int] == item_match_score(items[r[j] as int], query));
    }
}

/// Ranks matched positions: those with a score, best score first, equal
/// scores keeping their order.
pub fn rank_matches(scores: &Vec<Option<i64>>) -> (r: Vec<usize>)
    ensures
        r@ == ranked_matches(scores@),
{
    let mut pos: Vec<usize> = Vec::new();
    let mut i: usize = 0;
    while i < scores.len()
        invariant
            i <= scores.len(),
            pos@ == matched_positions(scores@.take(i as int)),
        decreases scores.len() - i,
    {
        proof {
            assert(scores@.take(i + 1).drop_last() =~= scores@.take(i as int));
        }
        if scores[i].is_some() {
            pos.push(i);
        }
        i = i + 1;
    }
    proof {
        assert(scores@.take(scores.len() as int) =~= scores@);
        lemma_matched_positions_bounded(scores@);
    }
    let mut keys: Vec<SortKey> = Vec::new();
    let mut m: usize = 0;
    while m < pos.len()
        invariant
            m <= pos.len(),
            pos@ == matched_positions(scores@),
            forall|j: int| 0 <= j < pos.len() ==> {
                let p = #[trigger] pos@[j];
                p < scores.len() && scores@[p as int] is Some
            },
            keys.len() == m,
            forall|j: int| 0 <= j < m ==> (#[trigger] keys@[j])@ == match_key(scores@, pos@[j]),
        decreases pos.len() - m,
    {
        let p = pos[m];
        let score = match scores[p] {
            Some(v) => v,
            None => 0,
        };
        keys.push(SortKey { a: -(score as i128), b: Vec::new(), c: 0, d: Vec::new(), e: 0 });
        m = m + 1;
    }
    proof {
        assert(keys@.map_values(|k: SortKey| k@) =~= pos@.map_values(|p: usize| match_key(scores@, p)));
    }
    let perm = stable_sort_positions(&keys);
    let mut r: Vec<usize> = Vec::new();
    let mut k: usize = 0;
    let ghost pv = perm@.map_values(|p: usize| p as int);
    while k < perm.len()
        invariant
            k <= perm.len(),
            pv == perm@.map_values(|p: usize| p as int),
            pv.len() == pos.len(),
            forall|j: int| 0 <= j < pv.len() ==> 0 <= #[trigger] pv[j] < pos.len(),
            r.len() == k,
            forall|j: int| 0 <= j < k ==> r@[j] == pos@[pv[j]],
        decreases perm.len() - k,
    {
        assert(pv[k as int] == perm@[k as int] as int);
        r.push(pos[perm[k]]);
        k = k + 1;
    }
    assert(r@ =~= permute(pos@, pv));
    r
}

/// Filter items based on search query: positions of matching items, best
/// match first; every position when the query is empty.
pub fn filter_items(analysis: &UnifiedAnalysis, query: &str) -> (r: Vec<usize>)
    ensures
        r@ == search_results(analysis.items@, query@),
{
    let n = analysis.items.len();
    if query.unicode_len() == 0 {
        let mut r: Vec<usize> = Vec::new();
        let mut i: usize = 0;
        while i < n
            invariant
                i <= n,
                n == analysis.items.len(),
                r.len() == i,
                forall|j: int| 0 <= j < i ==> r@[j] == j,
            decreases n - i,
        {
            r.push(i);
            i = i + 1;
        }
        assert(r@ =~= all_positions(n as nat));
        return r;
    }
    let mut scores: Vec<Option<i64>> = Vec::new();
    let mut i: usize = 0;
    while i < n
        invariant
            i <= n,
            n == analysis.items.len(),
            scores.len() == i,
            forall|j: int| 0 <= j < i ==> scores@[j] == item_match_score(#[trigger] analysis.items@[j], query@),
        decreases n - i,
    {
        let item = &analysis.items[i];
        let file_score = fuzzy_match(item.location.file.as_str(), query);
        let function_score = fuzzy_match(item.location.function.as_str(), query);
        let rec_score = fuzzy_match(item.primary_action.as_str(), query);
        let best = if file_score.is_some() {
            file_score
        } else if function_score.is_some() {
            function_score
        } else {
            rec_score
        };
        scores.push(best);
        i = i + 1;
    }
    assert(scores@ =~= item_scores(analysis.items@, query@));
    rank_matches(&scores)
}

} // verus!
