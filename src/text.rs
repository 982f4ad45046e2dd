//! Character-sequence primitives: search, split, join and replace, with
//! the same left-to-right, non-overlapping matching that `str::split` and
//! `str::replace` use.
use vstd::prelude::*;

verus! {

/// `p` occurs in `s` starting at position `i`.
pub open spec fn match_at(s: Seq<char>, p: Seq<char>, i: int) -> bool {
    0 <= i && i + p.len() <= s.len() && s.subrange(i, i + p.len()) == p
}

/// `p` occurs somewhere in `s`.
pub open spec fn contains(s: Seq<char>, p: Seq<char>) -> bool {
    exists|i: int| match_at(s, p, i)
}

pub open spec fn starts_with(s: Seq<char>, p: Seq<char>) -> bool {
    p.len() <= s.len() && s.subrange(0, p.len() as int) == p
}

pub open spec fn ends_with(s: Seq<char>, p: Seq<char>) -> bool {
    p.len() <= s.len() && s.subrange(s.len() - p.len(), s.len() as int) == p
}

/// The pieces of `s` from `start` on, where the scan for the next separator
/// has reached position `i`.
pub open spec fn split_scan(s: Seq<char>, p: Seq<char>, start: int, i: int) -> Seq<Seq<char>>
    decreases s.len() - i,
{
    if p.len() == 0 || i < start || start < 0 || i + p.len() > s.len() {
        seq![s.subrange(start, s.len() as int)]
    } else if match_at(s, p, i) {
        seq![s.subrange(start, i)] + split_scan(s, p, i + p.len(), i + p.len())
    } else {
        split_scan(s, p, start, i + 1)
    }
}

/// The pieces of `s` between the non-overlapping occurrences of `p`, found
/// from left to right.
pub open spec fn split(s: Seq<char>, p: Seq<char>) -> Seq<Seq<char>> {
    split_scan(s, p, 0, 0)
}

/// The pieces, with `sep` between each two of them.
pub open spec fn join(pieces: Seq<Seq<char>>, sep: Seq<char>) -> Seq<char>
    decreases pieces.len(),
{
    if pieces.len() == 0 {
        Seq::empty()
    } else if pieces.len() == 1 {
        pieces[0]
    } else {
        join(pieces.drop_last(), sep) + sep + pieces.last()
    }
}

/// Every non-overlapping occurrence of `from`, found from left to right,
/// replaced by `to`.
pub open spec fn replace(s: Seq<char>, from: Seq<char>, to: Seq<char>) -> Seq<char> {
    join(split(s, from), to)
}

/// The number of non-overlapping occurrences of `p` in `s`.
pub open spec fn count_matches(s: Seq<char>, p: Seq<char>) -> int {
    split(s, p).len() - 1
}

pub open spec fn lower_char(c: char) -> char {
    if 'A' <= c && c <= 'Z' {
        ((c as u32) + 32) as char
    } else {
        c
    }
}

/// ASCII case folding: upper-case Latin letters become lower-case ones.
pub open spec fn ascii_lower(s: Seq<char>) -> Seq<char> {
    s.map_values(|c: char| lower_char(c))
}

pub proof fn lemma_split_scan_nonempty(s: Seq<char>, p: Seq<char>, start: int, i: int)
    ensures
        split_scan(s, p, start, i).len() >= 1,
    decreases s.len() - i,
{
    if p.len() == 0 || i < start || start < 0 || i + p.len() > s.len() {
    } else if match_at(s, p, i) {
        lemma_split_scan_nonempty(s, p, i + p.len(), i + p.len());
    } else {
        lemma_split_scan_nonempty(s, p, start, i + 1);
    }
}

/// The characters of `s`, one by one.
pub fn chars_of(s: &str) -> (r: Vec<char>)
    ensures
        r@ == s@,
{
    let n = s.unicode_len();
    let mut r: Vec<char> = Vec::new();
    let mut i: usize = 0;
    while i < n
        invariant
            n == s@.len(),
            i <= n,
            r@ == s@.subrange(0, i as int),
        decreases n - i,
    {
        r.push(s.get_char(i));
        i = i + 1;
    }
    assert(r@ =~= s@);
    r
}

/// Whether `p` occurs in `s` at position `i`.
pub fn match_at_exec(s: &Vec<char>, p: &Vec<char>, i: usize) -> (r: bool)
    ensures
        r == match_at(s@, p@, i as int),
{
    if i > s.len() || p.len() > s.len() - i {
        return false;
    }
    let sl = s.len();
    let mut j: usize = 0;
    while j < p.len()
        invariant
            sl == s@.len(),
            i + p@.len() <= s@.len(),
            j <= p@.len(),
            s@.subrange(i as int, i + j) == p@.subrange(0, j as int),
        decreases p@.len() - j,
    {
        if s[i + j] != p[j] {
            assert(s@.subrange(i as int, i + p@.len())[j as int] != p@[j as int]);
            return false;
        }
        assert(s@.subrange(i as int, i + j + 1) =~= s@.subrange(i as int, i + j).push(s@[i + j]));
        assert(p@.subrange(0, j + 1) =~= p@.subrange(0, j as int).push(p@[j as int]));
        j = j + 1;
    }
    assert(p@.subrange(0, p@.len() as int) =~= p@);
    true
}

/// Whether `p` occurs anywhere in `s`.
pub fn contains_exec(s: &Vec<char>, p: &Vec<char>) -> (r: bool)
    ensures
        r == contains(s@, p@),
{
    if p.len() > s.len() {
        assert forall|k: int| !match_at(s@, p@, k) by {}
        return false;
    }
    let last = s.len() - p.len();
    let mut i: usize = 0;
    loop
        invariant
            last == s@.len() - p@.len(),
            i <= last,
            forall|k: int| 0 <= k < i ==> !match_at(s@, p@, k),
        decreases last - i,
    {
        if match_at_exec(s, p, i) {
            return true;
        }
        if i == last {
            assert forall|k: int| !match_at(s@, p@, k) by {
                if 0 <= k <= i {
                }
            }
            return false;
        }
        i = i + 1;
    }
}

/// Whether `s` contains `p`.
pub fn str_contains(s: &str, p: &str) -> (r: bool)
    ensures
        r == contains(s@, p@),
{
    let sc = chars_of(s);
    let pc = chars_of(p);
    contains_exec(&sc, &pc)
}

/// Whether `a` and `b` hold the same characters.
pub fn str_eq(a: &str, b: &str) -> (r: bool)
    ensures
        r == (a@ == b@),
{
    let n = a.unicode_len();
    if n != b.unicode_len() {
        return false;
    }
    let mut i: usize = 0;
    while i < n
        invariant
            n == a@.len(),
            n == b@.len(),
            i <= n,
            a@.subrange(0, i as int) == b@.subrange(0, i as int),
        decreases n - i,
    {
        if a.get_char(i) != b.get_char(i) {
            return false;
        }
        assert(a@.subrange(0, i + 1) =~= a@.subrange(0, i as int).push(a@[i as int]));
        assert(b@.subrange(0, i + 1) =~= b@.subrange(0, i as int).push(b@[i as int]));
        i = i + 1;
    }
    assert(a@ =~= a@.subrange(0, n as int));
    assert(b@ =~= b@.subrange(0, n as int));
    true
}

pub fn str_starts_with(s: &str, p: &str) -> (r: bool)
    ensures
        r == starts_with(s@, p@),
{
    let sc = chars_of(s);
    let pc = chars_of(p);
    let r = match_at_exec(&sc, &pc, 0);
    r
}

pub fn str_ends_with(s: &str, p: &str) -> (r: bool)
    ensures
        r == ends_with(s@, p@),
{
    let sc = chars_of(s);
    let pc = chars_of(p);
    if pc.len() > sc.len() {
        return false;
    }
    match_at_exec(&sc, &pc, sc.len() - pc.len())
}

/// The pieces of `s` between the occurrences of `p`, as `str::split` gives them.
pub fn split_exec<'a>(s: &'a str, p: &str) -> (r: Vec<&'a str>)
    requires
        p@.len() > 0,
    ensures
        r@.len() == split(s@, p@).len(),
        forall|k: int| 0 <= k < r@.len() ==> #[trigger] r@[k]@ == split(s@, p@)[k],
{
    let sc = chars_of(s);
    let pc = chars_of(p);
    let n = sc.len();
    let m = pc.len();
    let mut r: Vec<&'a str> = Vec::new();
    let mut start: usize = 0;
    let mut i: usize = 0;
    while m <= n - i
        invariant
            sc@ == s@,
            pc@ == p@,
            n == s@.len(),
            m == p@.len(),
            m > 0,
            start <= i,
            i <= n,
            r@.len() + split_scan(s@, p@, start as int, i as int).len() == split(s@, p@).len(),
            forall|k: int| 0 <= k < r@.len() ==> #[trigger] r@[k]@ == split(s@, p@)[k],
            forall|k: int|
                0 <= k < split_scan(s@, p@, start as int, i as int).len() ==> split_scan(
                    s@,
                    p@,
                    start as int,
                    i as int,
                )[k] == split(s@, p@)[r@.len() + k],
        decreases n - i,
    {
        if match_at_exec(&sc, &pc, i) {
            let ghost old_scan = split_scan(s@, p@, start as int, i as int);
            let ghost next_scan = split_scan(s@, p@, (i + m) as int, (i + m) as int);
            assert(old_scan == seq![s@.subrange(start as int, i as int)] + next_scan);
            let piece = s.substring_char(start, i);
            assert(old_scan[0] == s@.subrange(start as int, i as int));
            r.push(piece);
            assert forall|k: int| 0 <= k < next_scan.len() implies next_scan[k] == split(s@, p@)[r@.len() + k] by {
                assert(old_scan[k + 1] == next_scan[k]);
            }
            start = i + m;
            i = i + m;
        } else {
            i = i + 1;
        }
    }
    let ghost last = split_scan(s@, p@, start as int, i as int);
    assert(last == seq![s@.subrange(start as int, n as int)]);
    let piece = s.substring_char(start, n);
    assert(last[0] == split(s@, p@)[r@.len() as int]);
    r.push(piece);
    r
}

/// The pieces, with `sep` between each two of them.
pub fn join_exec(pieces: &Vec<&str>, sep: &str) -> (r: String)
    ensures
        r@ == join(pieces@.map_values(|x: &str| x@), sep@),
{
    let ghost views = pieces@.map_values(|x: &str| x@);
    let mut r = String::new();
    let mut i: usize = 0;
    while i < pieces.len()
        invariant
            i <= pieces@.len(),
            views == pieces@.map_values(|x: &str| x@),
            r@ == join(views.subrange(0, i as int), sep@),
        decreases pieces@.len() - i,
    {
        let ghost before = views.subrange(0, i as int);
        let ghost after = views.subrange(0, i + 1);
        assert(after.drop_last() =~= before);
        if i > 0 {
            r.append(sep);
        }
        r.append(pieces[i]);
        proof {
            if i == 0 {
                assert(r@ =~= after[0]);
            }
        }
        i = i + 1;
    }
    assert(views.subrange(0, pieces@.len() as int) =~= views);
    r
}

/// Every non-overlapping occurrence of `from` in `s` replaced by `to`, as
/// `str::replace` does it.
pub fn replace_exec(s: &str, from: &str, to: &str) -> (r: String)
    requires
        from@.len() > 0,
    ensures
        r@ == replace(s@, from@, to@),
{
    let pieces = split_exec(s, from);
    let r = join_exec(&pieces, to);
    assert(pieces@.map_values(|x: &str| x@) =~= split(s@, from@));
    r
}

/// `s` with upper-case ASCII letters made lower-case, as characters.
pub fn ascii_lower_exec(s: &str) -> (r: Vec<char>)
    ensures
        r@ == ascii_lower(s@),
{
    let cs = chars_of(s);
    let mut r: Vec<char> = Vec::new();
    let mut i: usize = 0;
    while i < cs.len()
        invariant
            cs@ == s@,
            i <= cs@.len(),
            r@ == ascii_lower(s@).subrange(0, i as int),
        decreases cs@.len() - i,
    {
        let c = cs[i];
        let l = if 'A' <= c && c <= 'Z' {
            char_from_u32_lower(c)
        } else {
            c
        };
        r.push(l);
        assert(r@ =~= ascii_lower(s@).subrange(0, i + 1));
        i = i + 1;
    }
    assert(r@ =~= ascii_lower(s@));
    r
}

fn char_from_u32_lower(c: char) -> (r: char)
    requires
        'A' <= c && c <= 'Z',
    ensures
        r == lower_char(c),
{
    let code: u32 = c as u32 + 32;
    let r = if code == 97 { 'a' } else if code == 98 { 'b' } else if code == 99 { 'c' }
        else if code == 100 { 'd' } else if code == 101 { 'e' } else if code == 102 { 'f' }
        else if code == 103 { 'g' } else if code == 104 { 'h' } else if code == 105 { 'i' }
        else if code == 106 { 'j' } else if code == 107 { 'k' } else if code == 108 { 'l' }
        else if code == 109 { 'm' } else if code == 110 { 'n' } else if code == 111 { 'o' }
        else if code == 112 { 'p' } else if code == 113 { 'q' } else if code == 114 { 'r' }
        else if code == 115 { 's' } else if code == 116 { 't' } else if code == 117 { 'u' }
        else if code == 118 { 'v' } else if code == 119 { 'w' } else if code == 120 { 'x' }
        else if code == 121 { 'y' } else { 'z' };
    r
}

} // verus!
