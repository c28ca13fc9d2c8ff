//! Character-level helpers shared by the parsers: Unicode white space,
//! first occurrence of a pattern, and trimming.

use vstd::prelude::*;

verus! {

broadcast use vstd::string::group_string_axioms;

/// The characters with the Unicode `White_Space` property.
pub open spec fn is_white_spec(c: char) -> bool {
    let u = c as u32;
    (9 <= u && u <= 13) || u == 32 || u == 0x85 || u == 0xa0 || u == 0x1680
        || (0x2000 <= u && u <= 0x200a) || u == 0x2028 || u == 0x2029 || u == 0x202f
        || u == 0x205f || u == 0x3000
}

/// Whether `c` is white space in the sense of `is_white_spec`.
pub fn is_white(c: char) -> (r: bool)
    ensures
        r == is_white_spec(c),
{
    let u = c as u32;
    (9 <= u && u <= 13) || u == 32 || u == 0x85 || u == 0xa0 || u == 0x1680
        || (0x2000 <= u && u <= 0x200a) || u == 0x2028 || u == 0x2029 || u == 0x202f
        || u == 0x205f || u == 0x3000
}

/// `s` with its leading white space removed.
pub open spec fn trim_start(s: Seq<char>) -> Seq<char>
    decreases s.len(),
{
    if s.len() > 0 && is_white_spec(s[0]) {
        trim_start(s.drop_first())
    } else {
        s
    }
}

/// `s` with its trailing white space removed.
pub open spec fn trim_end(s: Seq<char>) -> Seq<char>
    decreases s.len(),
{
    if s.len() > 0 && is_white_spec(s.last()) {
        trim_end(s.drop_last())
    } else {
        s
    }
}

/// `s` with white space removed at both ends.
pub open spec fn trim(s: Seq<char>) -> Seq<char> {
    trim_end(trim_start(s))
}

/// `p` occurs in `s` starting at position `i`.
pub open spec fn occurs_at(s: Seq<char>, p: Seq<char>, i: int) -> bool {
    0 <= i && i + p.len() <= s.len() && s.subrange(i, i + p.len()) == p
}

/// The first position at or after `i` where `p` occurs in `s`.
pub open spec fn find_from(s: Seq<char>, p: Seq<char>, i: int) -> Option<int>
    decreases s.len() + 1 - i,
{
    if i < 0 || i + p.len() > s.len() {
        None
    } else if occurs_at(s, p, i) {
        Some(i)
    } else {
        find_from(s, p, i + 1)
    }
}

/// A position that `find_from` returns lies within `s`, at or after `i`.
pub proof fn lemma_found_in_bounds(s: Seq<char>, p: Seq<char>, i: int)
    ensures
        match find_from(s, p, i) {
            Some(j) => i <= j && occurs_at(s, p, j),
            None => true,
        },
    decreases s.len() + 1 - i,
{
    if i < 0 || i + p.len() > s.len() {
    } else if occurs_at(s, p, i) {
    } else {
        lemma_found_in_bounds(s, p, i + 1);
    }
}

/// A first occurrence found from `x` is also the first one found from any
/// later start that does not pass it.
pub proof fn lemma_find_from_later(s: Seq<char>, p: Seq<char>, x: int, m: int, j: int)
    requires
        find_from(s, p, x) == Some(j),
        0 <= x <= m <= j,
    ensures
        find_from(s, p, m) == Some(j),
    decreases m - x,
{
    if x < m {
        lemma_find_from_later(s, p, x + 1, m, j);
    }
}

/// The first position where `p` occurs in `s`.
pub open spec fn find(s: Seq<char>, p: Seq<char>) -> Option<int> {
    find_from(s, p, 0)
}

/// The characters of `s`, in order.
pub fn chars_of(s: &str) -> (r: Vec<char>)
    ensures
        r@ == s@,
{
    let n = s.unicode_len();
    let mut r: Vec<char> = Vec::new();
    let mut i: usize = 0;
    while i < n
        invariant
            n == s@.len(),
            i <= n,
            r@ == s@.subrange(0, i as int),
        decreases n - i,
    {
        r.push(s.get_char(i));
        i = i + 1;
    }
    assert(r@ =~= s@);
    r
}

/// Whether `p` occurs in `s` at position `i`.
pub fn occurs_at_exec(s: &Vec<char>, p: &Vec<char>, i: usize) -> (r: bool)
    ensures
        r == occurs_at(s@, p@, i as int),
{
    if i > s.len() || p.len() > s.len() - i {
        return false;
    }
    let mut j: usize = 0;
    while j < p.len()
        invariant
            i + p.len() <= s.len(),
            j <= p.len(),
            forall|k: int| 0 <= k < j ==> s@[i + k] == p@[k],
        decreases p.len() - j,
    {
        if s[i + j] != p[j] {
            assert(s@.subrange(i as int, i + p@.len())[j as int] != p@[j as int]);
            return false;
        }
        j = j + 1;
    }
    assert(s@.subrange(i as int, i + p@.len()) =~= p@);
    true
}

/// The first position at or after `from` where `p` occurs in `s`.
pub fn find_from_exec(s: &Vec<char>, p: &Vec<char>, from: usize) -> (r: Option<usize>)
    ensures
        match r {
            Some(i) => find_from(s@, p@, from as int) == Some(i as int),
            None => find_from(s@, p@, from as int).is_none(),
        },
{
    let mut i = from;
    while i <= s.len() && p.len() <= s.len() - i
        invariant
            from <= i,
            find_from(s@, p@, from as int) == find_from(s@, p@, i as int),
        decreases s.len() + 1 - i,
    {
        if occurs_at_exec(s, p, i) {
            return Some(i);
        }
        if i == s.len() {
            assert(find_from(s@, p@, i + 1).is_none());
            return None;
        }
        i = i + 1;
    }
    None
}

/// Bounds `(a, b)` such that `s[a..b]` is `s[lo..hi]` trimmed.
pub fn trim_bounds(s: &Vec<char>, lo: usize, hi: usize) -> (r: (usize, usize))
    requires
        lo <= hi <= s@.len(),
    ensures
        lo <= r.0 <= r.1 <= hi,
        s@.subrange(r.0 as int, r.1 as int) == trim(s@.subrange(lo as int, hi as int)),
{
    let mut a = lo;
    while a < hi && is_white(s[a])
        invariant
            lo <= a <= hi <= s@.len(),
            trim_start(s@.subrange(lo as int, hi as int)) == trim_start(
                s@.subrange(a as int, hi as int),
            ),
        decreases hi - a,
    {
        assert(s@.subrange(a as int, hi as int).drop_first() =~= s@.subrange(
            a + 1,
            hi as int,
        ));
        a = a + 1;
    }
    let mut b = hi;
    while b > a && is_white(s[b - 1])
        invariant
            lo <= a <= b <= hi <= s@.len(),
            trim_start(s@.subrange(lo as int, hi as int)) == s@.subrange(a as int, hi as int),
            trim(s@.subrange(lo as int, hi as int)) == trim_end(s@.subrange(a as int, b as int)),
        decreases b - a,
    {
        assert(s@.subrange(a as int, b as int).drop_last() =~= s@.subrange(
            a as int,
            b - 1,
        ));
        b = b - 1;
    }
    (a, b)
}

/// `s[lo..hi]` trimmed, as a new string; `src` is the text that `s` holds.
pub fn trimmed_slice(src: &str, s: &Vec<char>, lo: usize, hi: usize) -> (r: String)
    requires
        s@ == src@,
        lo <= hi <= s@.len(),
    ensures
        r@ == trim(s@.subrange(lo as int, hi as int)),
{
    let (a, b) = trim_bounds(s, lo, hi);
    String::from_str(src.substring_char(a, b))
}

/// `s` from position `pos` on, with each occurrence of `p` found scanning
/// left to right replaced by `r`.
pub open spec fn replace_from(s: Seq<char>, p: Seq<char>, r: Seq<char>, pos: int) -> Seq<char>
    decreases s.len() - pos,
{
    if pos < 0 || pos >= s.len() || p.len() == 0 {
        if 0 <= pos <= s.len() {
            s.subrange(pos, s.len() as int)
        } else {
            Seq::empty()
        }
    } else if occurs_at(s, p, pos) {
        r + replace_from(s, p, r, pos + p.len())
    } else {
        seq![s[pos]] + replace_from(s, p, r, pos + 1)
    }
}

/// `s` with every occurrence of `p` replaced by `r`.
pub open spec fn replace_all(s: Seq<char>, p: Seq<char>, r: Seq<char>) -> Seq<char> {
    replace_from(s, p, r, 0)
}

/// `src` with every occurrence of `p` replaced by `r`.
pub fn replace_all_exec(src: &str, p: &Vec<char>, r: &str) -> (out: String)
    ensures
        out@ == replace_all(src@, p@, r@),
{
    let s = chars_of(src);
    let mut out = String::new();
    if p.len() == 0 {
        out.append(src);
        assert(src@.subrange(0, src@.len() as int) =~= src@);
        return out;
    }
    let mut run: usize = 0;
    let mut pos: usize = 0;
    assert(s@.subrange(0, 0) =~= Seq::<char>::empty());
    while pos < s.len()
        invariant
            s@ == src@,
            p@.len() > 0,
            run <= pos <= s@.len(),
            out@ + s@.subrange(run as int, pos as int) + replace_from(s@, p@, r@, pos as int)
                == replace_all(s@, p@, r@),
        decreases s.len() - pos,
    {
        if occurs_at_exec(&s, p, pos) {
            let ghost before = out@;
            out.append(src.substring_char(run, pos));
            out.append(r);
            assert(out@ == before + s@.subrange(run as int, pos as int) + r@);
            assert(s@.subrange(pos + p@.len(), pos + p@.len()) =~= Seq::<char>::empty());
            assert(out@ + s@.subrange(pos + p@.len(), pos + p@.len()) =~= out@);
            assert(before + s@.subrange(run as int, pos as int) + (r@ + replace_from(
                s@,
                p@,
                r@,
                pos + p@.len(),
            )) =~= out@ + replace_from(s@, p@, r@, pos + p@.len()));
            pos = pos + p.len();
            run = pos;
        } else {
            assert(s@.subrange(run as int, pos as int) + (seq![s@[pos as int]] + replace_from(
                s@,
                p@,
                r@,
                pos + 1,
            )) =~= s@.subrange(run as int, pos + 1) + replace_from(s@, p@, r@, pos + 1));
            assert(out@ + s@.subrange(run as int, pos as int) + (seq![s@[pos as int]]
                + replace_from(s@, p@, r@, pos + 1)) =~= out@ + s@.subrange(run as int, pos + 1)
                + replace_from(s@, p@, r@, pos + 1));
            pos = pos + 1;
        }
    }
    out.append(src.substring_char(run, pos));
    assert(replace_from(s@, p@, r@, pos as int) =~= Seq::<char>::empty());
    assert(out@ =~= replace_all(s@, p@, r@));
    out
}

/// `c` as HTML text: `<` and `>` become entities.
pub open spec fn escape_char(c: char) -> Seq<char> {
    if c == '<' {
        "&lt;"@
    } else if c == '>' {
        "&gt;"@
    } else {
        seq![c]
    }
}

/// `s` with `<` and `>` written as entities.
pub open spec fn escape_html(s: Seq<char>) -> Seq<char>
    decreases s.len(),
{
    if s.len() == 0 {
        Seq::empty()
    } else {
        escape_html(s.drop_last()) + escape_char(s.last())
    }
}

/// `src` with `<` and `>` written as entities.
pub fn escape_html_exec(src: &str) -> (out: String)
    ensures
        out@ == escape_html(src@),
{
    let s = chars_of(src);
    let mut out = String::new();
    let mut run: usize = 0;
    let mut pos: usize = 0;
    assert(s@.subrange(0, 0) =~= Seq::<char>::empty());
    while pos < s.len()
        invariant
            s@ == src@,
            run <= pos <= s@.len(),
            out@ + s@.subrange(run as int, pos as int) == escape_html(s@.subrange(0, pos as int)),
            forall|k: int| run <= k < pos ==> s@[k] != '<' && s@[k] != '>',
        decreases s.len() - pos,
    {
        let c = s[pos];
        assert(s@.subrange(0, pos + 1).drop_last() =~= s@.subrange(0, pos as int));
        if c == '<' || c == '>' {
            out.append(src.substring_char(run, pos));
            if c == '<' {
                out.append("&lt;");
            } else {
                out.append("&gt;");
            }
            assert(s@.subrange(pos + 1, pos + 1) =~= Seq::<char>::empty());
            assert(out@ + s@.subrange(pos + 1, pos + 1) =~= escape_html(s@.subrange(0, pos + 1)));
            pos = pos + 1;
            run = pos;
        } else {
            assert(out@ + s@.subrange(run as int, pos + 1) =~= out@ + s@.subrange(run as int, pos as int) + seq![c]);
            pos = pos + 1;
        }
    }
    out.append(src.substring_char(run, pos));
    assert(s@.subrange(0, s@.len() as int) =~= s@);
    out
}

} // verus!
