//! Text building blocks: decimal rendering, character ranks for ordering, and
//! appending single characters.
use vstd::prelude::*;
use vstd::string::*;

verus! {

/// The decimal digit character for `d` (`d < 10`).
pub open spec fn digit_char(d: nat) -> char {
    if d == 0 {
        '0'
    } else if d == 1 {
        '1'
    } else if d == 2 {
        '2'
    } else if d == 3 {
        '3'
    } else if d == 4 {
        '4'
    } else if d == 5 {
        '5'
    } else if d == 6 {
        '6'
    } else if d == 7 {
        '7'
    } else if d == 8 {
        '8'
    } else {
        '9'
    }
}

/// Decimal representation of `n`, without leading zeros.
pub open spec fn decimal(n: nat) -> Seq<char>
    decreases n,
{
    if n < 10 {
        seq![digit_char(n)]
    } else {
        decimal(n / 10).push(digit_char(n % 10))
    }
}

/// Rank of a character for plain text ordering (its code point).
pub open spec fn char_rank(c: char) -> u32 {
    c as u32
}

/// Rank of a path component, as `std::path::Path` orders components: the
/// root, then ".", then "..", then named components by their characters; a
/// component ends with a zero so that a shorter name comes first. Empty
/// components (from repeated or trailing separators) and "." after the first
/// component are no components.
pub open spec fn component_key(part: Seq<char>, first: bool) -> Seq<u32> {
    if part.len() == 0 {
        Seq::empty()
    } else if part == seq!['.'] {
        if first {
            seq![2u32, 0u32]
        } else {
            Seq::empty()
        }
    } else if part == seq!['.', '.'] {
        seq![3u32, 0u32]
    } else {
        seq![4u32] + part.map_values(|c: char| (c as u32 + 1) as u32) + seq![0u32]
    }
}

/// Reading a path up to some point: the ranks of the components read so
/// far, the component being read, and how many separators were read.
pub open spec fn path_fold(s: Seq<char>) -> (Seq<u32>, Seq<char>, nat)
    decreases s.len(),
{
    if s.len() == 0 {
        (Seq::empty(), Seq::empty(), 0)
    } else {
        let st = path_fold(s.drop_last());
        if s.last() == '/' {
            (st.0 + component_key(st.1, st.2 == 0), Seq::empty(), st.2 + 1)
        } else {
            (st.0, st.1.push(s.last()), st.2)
        }
    }
}

/// Ranks of a path, ordering paths as `std::path::Path` does on Unix:
/// component by component, a rooted path's root first.
pub open spec fn path_ranks(s: Seq<char>) -> Seq<u32> {
    let st = path_fold(s);
    (if s.len() > 0 && s[0] == '/' { seq![1u32, 0u32] } else { Seq::empty() }) + st.0 + component_key(st.1, st.2 == 0)
}

/// Ranks of a text, for ordering texts by code point.
pub open spec fn text_ranks(s: Seq<char>) -> Seq<u32> {
    s.map_values(|c: char| char_rank(c))
}

/// Appends one character to a string.
///
/// Calls `String::push`, whose documentation states that it appends the given
/// character to the end of the string.
#[verifier::external_body]
pub(crate) fn push_char(s: &mut String, c: char)
    ensures
        final(s)@ == old(s)@.push(c),
{
    s.push(c);
}

/// Appends a string slice to a string.
pub fn push_str(s: &mut String, t: &str)
    ensures
        final(s)@ == old(s)@ + t@,
{
    s.append(t);
}

/// The decimal digit character for `d`.
pub fn digit(d: usize) -> (c: char)
    requires
        d < 10,
    ensures
        c == digit_char(d as nat),
{
    match d {
        0 => '0',
        1 => '1',
        2 => '2',
        3 => '3',
        4 => '4',
        5 => '5',
        6 => '6',
        7 => '7',
        8 => '8',
        _ => '9',
    }
}

/// Appends the decimal representation of `n`.
pub fn push_decimal(s: &mut String, n: u128)
    ensures
        final(s)@ == old(s)@ + decimal(n as nat),
    decreases n,
{
    if n < 10 {
        push_char(s, digit(n as usize));
    } else {
        push_decimal(s, n / 10);
        push_char(s, digit((n % 10) as usize));
    }
}

/// Decimal representation of `n`.
pub fn to_decimal(n: u128) -> (r: String)
    ensures
        r@ == decimal(n as nat),
{
    let mut s = String::new();
    push_decimal(&mut s, n);
    assert(s@ =~= decimal(n as nat));
    s
}

/// Character ranks of a text, for ordering by code point.
pub fn text_rank_vec(s: &str) -> (r: Vec<u32>)
    ensures
        r@ == text_ranks(s@),
{
    let n = s.unicode_len();
    let mut r: Vec<u32> = Vec::new();
    let mut i: usize = 0;
    while i < n
        invariant
            n == s@.len(),
            i <= n,
            r@ =~= text_ranks(s@.take(i as int)),
        decreases n - i,
    {
        let c = s.get_char(i);
        r.push(c as u32);
        proof {
            assert(s@.take(i + 1) =~= s@.take(i as int).push(c));
        }
        i = i + 1;
    }
    proof {
        assert(s@.take(n as int) =~= s@);
    }
    r
}

/// Appends the ranks of a path component.
fn push_component(out: &mut Vec<u32>, part: &Vec<char>, first: bool)
    ensures
        final(out)@ == old(out)@ + component_key(part@, first),
{
    let ghost start = out@;
    let n = part.len();
    if n == 0 {
        assert(out@ =~= start + component_key(part@, first));
        return;
    }
    if n == 1 && part[0] == '.' {
        assert(part@ =~= seq!['.']);
        if first {
            out.push(2);
            out.push(0);
        }
        assert(out@ =~= start + component_key(part@, first));
        return;
    }
    if n == 2 && part[0] == '.' && part[1] == '.' {
        assert(part@ =~= seq!['.', '.']);
        out.push(3);
        out.push(0);
        assert(out@ =~= start + component_key(part@, first));
        return;
    }
    assert(part@ != seq!['.']);
    assert(part@ != seq!['.', '.']);
    out.push(4);
    let mut i: usize = 0;
    while i < n
        invariant
            n == part@.len(),
            i <= n,
            out@ == start + seq![4u32] + part@.take(i as int).map_values(|c: char| (c as u32 + 1) as u32),
        decreases n - i,
    {
        let c = part[i];
        proof {
            vstd::utf8::char_is_scalar(c);
        }
        out.push(c as u32 + 1);
        assert(part@.take(i + 1).map_values(|c: char| (c as u32 + 1) as u32) =~= part@.take(i as int).map_values(
            |c: char| (c as u32 + 1) as u32,
        ).push((c as u32 + 1) as u32));
        i = i + 1;
    }
    out.push(0);
    assert(part@.take(n as int) =~= part@);
    assert(out@ =~= start + component_key(part@, first));
}

/// Ranks of a path, ordering paths as `std::path::Path` does.
pub fn path_rank_vec(s: &str) -> (r: Vec<u32>)
    ensures
        r@ == path_ranks(s@),
{
    let n = s.unicode_len();
    let mut out: Vec<u32> = Vec::new();
    let mut cur: Vec<char> = Vec::new();
    let mut seps: usize = 0;
    let mut i: usize = 0;
    while i < n
        invariant
            n == s@.len(),
            i <= n,
            seps <= i,
            path_fold(s@.take(i as int)) == (out@, cur@, seps as nat),
        decreases n - i,
    {
        let c = s.get_char(i);
        proof {
            assert(s@.take(i + 1).drop_last() =~= s@.take(i as int));
            assert(s@.take(i + 1).last() == c);
        }
        if c == '/' {
            push_component(&mut out, &cur, seps == 0);
            cur = Vec::new();
            seps = seps + 1;
        } else {
            cur.push(c);
        }
        i = i + 1;
    }
    proof {
        assert(s@.take(n as int) =~= s@);
    }
    let mut r: Vec<u32> = Vec::new();
    if n > 0 && s.get_char(0) == '/' {
        r.push(1);
        r.push(0);
    }
    let ghost head = r@;
    let mut k: usize = 0;
    while k < out.len()
        invariant
            k <= out.len(),
            r@ == head + out@.take(k as int),
        decreases out.len() - k,
    {
        r.push(out[k]);
        assert(out@.take(k + 1) =~= out@.take(k as int).push(out@[k as int]));
        k = k + 1;
    }
    assert(out@.take(out.len() as int) =~= out@);
    push_component(&mut r, &cur, seps == 0);
    assert(r@ =~= path_ranks(s@));
    r
}

/// Whether two paths are the same path, as `std::path::Path` compares them on
/// Unix: component by component.
pub fn paths_equal(a: &str, b: &str) -> (r: bool)
    ensures
        r == (path_ranks(a@) == path_ranks(b@)),
{
    let x = path_rank_vec(a);
    let y = path_rank_vec(b);
    if x.len() != y.len() {
        return false;
    }
    let mut i: usize = 0;
    while i < x.len()
        invariant
            x@ == path_ranks(a@),
            y@ == path_ranks(b@),
            x.len() == y.len(),
            i <= x.len(),
            forall|k: int| 0 <= k < i ==> x@[k] == y@[k],
        decreases x.len() - i,
    {
        if x[i] != y[i] {
            return false;
        }
        i = i + 1;
    }
    assert(x@ =~= y@);
    true
}

/// Equality of two string slices.
pub fn str_equal(a: &str, b: &str) -> (r: bool)
    ensures
        r == (a@ == b@),
{
    let n = a.unicode_len();
    let m = b.unicode_len();
    if n != m {
        return false;
    }
    let mut i: usize = 0;
    while i < n
        invariant
            n == a@.len(),
            m == b@.len(),
            n == m,
            i <= n,
            forall|j: int| 0 <= j < i ==> a@[j] == b@[j],
        decreases n - i,
    {
        if a.get_char(i) != b.get_char(i) {
            return false;
        }
        i = i + 1;
    }
    assert(a@ =~= b@);
    true
}

/// `n / d` rounded to the nearest whole number, halves to even (as Rust's
/// formatting rounds a decimal that lies exactly halfway).
pub open spec fn div_round_even(n: nat, d: nat) -> nat {
    let q = n / d;
    let r = n % d;
    if 2 * r > d || (2 * r == d && q % 2 == 1) {
        q + 1
    } else {
        q
    }
}

/// `n / d` rounded to the nearest whole number, halves to even.
pub fn round_div_even(n: u128, d: u128) -> (r: u128)
    requires
        0 < d < u128::MAX / 4,
    ensures
        r == div_round_even(n as nat, d as nat),
{
    let q = n / d;
    let r = n % d;
    if 2 * r > d || (2 * r == d && q % 2 == 1) {
        assert(q < u128::MAX) by (nonlinear_arith)
            requires
                q == n / d,
                r == n % d,
                r > 0,
                d > 0,
        {
            assert(n == d * q + r);
        }
        q + 1
    } else {
        q
    }
}

} // verus!
