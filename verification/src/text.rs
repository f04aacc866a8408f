//! Substring search over strings, used to classify error messages.

use vstd::prelude::*;

verus! {

/// `pat` occurs in `hay` starting at position `i`.
pub open spec fn infix_at(hay: Seq<char>, pat: Seq<char>, i: int) -> bool {
    0 <= i && i + pat.len() <= hay.len() && hay.subrange(i, i + pat.len()) == pat
}

/// `pat` occurs somewhere in `hay`.
pub open spec fn has_infix(hay: Seq<char>, pat: Seq<char>) -> bool {
    exists|i: int| infix_at(hay, pat, i)
}

/// The characters of `s`, in order.
pub fn chars_of(s: &str) -> (v: Vec<char>)
    ensures
        v@ == s@,
{
    broadcast use vstd::string::axiom_spec_iter;
    let mut v: Vec<char> = Vec::new();
    for ch in it: s.chars()
        invariant
            v@ == it.seq().take(it.index() as int),
    {
        v.push(ch);
        assert(v@ =~= it.seq().take(it.index() + 1));
    }
    assert(v@ =~= s@);
    v
}

/// Whether `hay[start..start + pat.len()]` equals `pat`.
fn matches_at(hay: &Vec<char>, pat: &Vec<char>, start: usize) -> (r: bool)
    requires
        start + pat@.len() <= hay@.len(),
    ensures
        r == infix_at(hay@, pat@, start as int),
{
    let hay_len = hay.len();
    let mut j: usize = 0;
    while j < pat.len()
        invariant
            start + pat@.len() <= hay@.len(),
            hay_len == hay@.len(),
            j <= pat@.len(),
            forall|k: int| 0 <= k < j ==> hay@[start + k] == pat@[k],
        decreases pat@.len() - j,
    {
        if hay[start + j] != pat[j] {
            assert(hay@.subrange(start as int, start + pat@.len())[j as int] != pat@[j as int]);
            return false;
        }
        j = j + 1;
    }
    assert(hay@.subrange(start as int, start + pat@.len()) =~= pat@);
    true
}

/// Whether `pat` occurs in `hay`.
pub fn str_contains(hay: &str, pat: &str) -> (r: bool)
    ensures
        r == has_infix(hay@, pat@),
{
    let h = chars_of(hay);
    let p = chars_of(pat);
    if p.len() > h.len() {
        assert forall|i: int| !infix_at(hay@, pat@, i) by {}
        return false;
    }
    let last = h.len() - p.len();
    let mut i: usize = 0;
    loop
        invariant
            h@ == hay@,
            p@ == pat@,
            last + p@.len() == h@.len(),
            i <= last,
            forall|k: int| 0 <= k < i ==> !infix_at(hay@, pat@, k),
        ensures
            forall|k: int| 0 <= k <= last ==> !infix_at(hay@, pat@, k),
        decreases last - i,
    {
        if matches_at(&h, &p, i) {
            return true;
        }
        if i == last {
            break;
        }
        i = i + 1;
    }
    assert forall|k: int| !infix_at(hay@, pat@, k) by {
        if 0 <= k && k + pat@.len() <= hay@.len() {
            assert(k <= last);
        }
    }
    false
}

/// Rust's notion of whitespace (`char::is_whitespace`, Unicode White_Space).
pub open spec fn is_whitespace(c: char) -> bool {
    let u = c as u32;
    (0x9 <= u && u <= 0xD) || u == 0x20 || u == 0x85 || u == 0xA0 || u == 0x1680
        || (0x2000 <= u && u <= 0x200A) || u == 0x2028 || u == 0x2029 || u == 0x202F
        || u == 0x205F || u == 0x3000
}

/// `s` without leading whitespace.
pub open spec fn trim_front(s: Seq<char>) -> Seq<char>
    decreases s.len(),
{
    if s.len() > 0 && is_whitespace(s[0]) {
        trim_front(s.drop_first())
    } else {
        s
    }
}

/// Whether `ch` is whitespace in Rust's sense.
pub fn is_ws(ch: char) -> (r: bool)
    ensures
        r == is_whitespace(ch),
{
    let u = ch as u32;
    (0x9 <= u && u <= 0xD) || u == 0x20 || u == 0x85 || u == 0xA0 || u == 0x1680
        || (0x2000 <= u && u <= 0x200A) || u == 0x2028 || u == 0x2029 || u == 0x202F
        || u == 0x205F || u == 0x3000
}


/// Number of non-overlapping occurrences of `p` in `h`, found left to right
/// (what `str::matches(..).count()` gives).
pub open spec fn count_occ(h: Seq<char>, p: Seq<char>) -> nat
    decreases h.len(),
{
    if p.len() == 0 {
        (h.len() + 1) as nat
    } else if h.len() < p.len() {
        0
    } else if h.take(p.len() as int) == p {
        1 + count_occ(h.skip(p.len() as int), p)
    } else {
        count_occ(h.drop_first(), p)
    }
}

/// Dropping a prefix of the haystack never adds occurrences.
pub proof fn lemma_count_occ_suffix(h: Seq<char>, p: Seq<char>, k: int)
    requires
        p.len() > 0,
        0 <= k <= h.len(),
    ensures
        count_occ(h.skip(k), p) <= count_occ(h, p),
    decreases h.len(), p.len() + 1,
{
    if k == 0 {
        assert(h.skip(0) =~= h);
    } else if h.len() < p.len() {
    } else if h.take(p.len() as int) == p {
        if k >= p.len() {
            let t = h.skip(p.len() as int);
            lemma_count_occ_suffix(t, p, k - p.len());
            assert(t.skip(k - p.len()) =~= h.skip(k));
        } else {
            lemma_count_occ_after_match(h, p, k);
        }
    } else {
        let t = h.drop_first();
        lemma_count_occ_suffix(t, p, k - 1);
        assert(t.skip(k - 1) =~= h.skip(k));
    }
}

/// Starting inside an occurrence of `p` finds at most one more occurrence
/// than starting right after it.
proof fn lemma_count_occ_after_match(h: Seq<char>, p: Seq<char>, k: int)
    requires
        p.len() > 0,
        p.len() <= h.len(),
        h.take(p.len() as int) == p,
        1 <= k <= p.len(),
    ensures
        count_occ(h.skip(k), p) <= 1 + count_occ(h.skip(p.len() as int), p),
    decreases h.len(), p.len() - k,
{
    if k == p.len() {
    } else {
        let u = h.skip(k);
        if u.len() < p.len() {
        } else if u.take(p.len() as int) == p {
            let t = h.skip(p.len() as int);
            lemma_count_occ_suffix(t, p, k);
            assert(u.skip(p.len() as int) =~= t.skip(k));
        } else {
            lemma_count_occ_after_match(h, p, k + 1);
            assert(u.drop_first() =~= h.skip(k + 1));
        }
    }
}

/// A pattern that extends `p` occurs at most as often as `p`.
pub proof fn lemma_count_occ_longer_pattern(h: Seq<char>, p: Seq<char>, q: Seq<char>)
    requires
        p.len() > 0,
        p.len() <= q.len(),
        q.take(p.len() as int) == p,
    ensures
        count_occ(h, q) <= count_occ(h, p),
    decreases h.len(),
{
    if h.len() < q.len() {
    } else if h.take(q.len() as int) == q {
        assert(h.take(p.len() as int) =~= q.take(p.len() as int));
        let t = h.skip(q.len() as int);
        lemma_count_occ_longer_pattern(t, p, q);
        let s = h.skip(p.len() as int);
        lemma_count_occ_suffix(s, p, q.len() - p.len());
        assert(s.skip(q.len() - p.len()) =~= t);
    } else {
        lemma_count_occ_longer_pattern(h.drop_first(), p, q);
        lemma_count_occ_suffix(h, p, 1);
        assert(h.skip(1) =~= h.drop_first());
    }
}

proof fn lemma_count_occ_bound(h: Seq<char>, p: Seq<char>)
    requires
        p.len() > 0,
    ensures
        count_occ(h, p) <= h.len(),
    decreases h.len(),
{
    if h.len() < p.len() {
    } else if h.take(p.len() as int) == p {
        lemma_count_occ_bound(h.skip(p.len() as int), p);
    } else {
        lemma_count_occ_bound(h.drop_first(), p);
    }
}

/// Number of non-overlapping occurrences of `pat` in `hay`, left to right.
pub fn count_occurrences(hay: &Vec<char>, pat: &Vec<char>) -> (r: usize)
    requires
        pat@.len() > 0,
    ensures
        r == count_occ(hay@, pat@),
{
    let n = hay.len();
    let m = pat.len();
    let mut count: usize = 0;
    let mut i: usize = 0;
    proof {
        assert(hay@.skip(0) =~= hay@);
        lemma_count_occ_bound(hay@, pat@);
    }
    while m <= n - i
        invariant
            n == hay@.len(),
            m == pat@.len(),
            m > 0,
            i <= n,
            count + count_occ(hay@.skip(i as int), pat@) == count_occ(hay@, pat@),
            count_occ(hay@, pat@) <= n,
        decreases n - i,
    {
        let t = Ghost(hay@.skip(i as int));
        if matches_at(hay, pat, i) {
            proof {
                assert(t@.take(m as int) =~= hay@.subrange(i as int, i + m));
                assert(t@.skip(m as int) =~= hay@.skip(i + m));
            }
            count = count + 1;
            i = i + m;
        } else {
            proof {
                assert(t@.take(m as int) =~= hay@.subrange(i as int, i + m));
                assert(t@.drop_first() =~= hay@.skip(i + 1));
            }
            i = i + 1;
        }
    }
    count
}

/// Index of the first `\n` at or after `i`, or the length of `c`.
pub open spec fn next_newline(c: Seq<char>, i: int) -> int
    decreases c.len() - i,
{
    if i >= c.len() || i < 0 {
        c.len() as int
    } else if c[i] == '\n' {
        i
    } else {
        next_newline(c, i + 1)
    }
}

/// The first newline at or after `i` lies between `i` and the end, and no
/// newline comes before it.
pub proof fn lemma_next_newline(c: Seq<char>, i: int)
    requires
        0 <= i <= c.len(),
    ensures
        i <= next_newline(c, i) <= c.len(),
        next_newline(c, i) < c.len() ==> c[next_newline(c, i)] == '\n',
        forall|j: int| i <= j < next_newline(c, i) ==> c[j] != '\n',
    decreases c.len() - i,
{
    if i < c.len() && c[i] != '\n' {
        lemma_next_newline(c, i + 1);
    }
}

/// `l` without one trailing carriage return.
pub open spec fn strip_cr(l: Seq<char>) -> Seq<char> {
    if l.len() > 0 && l.last() == '\r' {
        l.drop_last()
    } else {
        l
    }
}

/// The lines of `c` that start at or after `s` (`str::lines`): a line ends
/// at `\n`, which it does not keep, nor a `\r` just before it; a last line
/// without `\n` is kept whole unless it is empty.
pub open spec fn lines_from(c: Seq<char>, s: int) -> Seq<Seq<char>>
    decreases c.len() - s,
{
    if s < 0 || s >= c.len() {
        Seq::empty()
    } else {
        let e = next_newline(c, s);
        if e >= c.len() {
            seq![c.subrange(s, c.len() as int)]
        } else {
            proof {
                lemma_next_newline(c, s);
            }
            seq![strip_cr(c.subrange(s, e))] + lines_from(c, e + 1)
        }
    }
}

/// The lines of `c`, as `str::lines` yields them.
pub open spec fn lines_of(c: Seq<char>) -> Seq<Seq<char>> {
    lines_from(c, 0)
}

/// The lines joined with `\n` between them (`[..].join("\n")`).
pub open spec fn join_lines(ls: Seq<Seq<char>>) -> Seq<char>
    decreases ls.len(),
{
    if ls.len() == 0 {
        Seq::empty()
    } else if ls.len() == 1 {
        ls[0]
    } else {
        ls[0] + seq!['\n'] + join_lines(ls.drop_first())
    }
}

/// A string holding `chars`, in order (collecting the characters).
#[verifier::external_body]
pub(crate) fn string_from_chars(chars: &Vec<char>) -> (r: String)
    ensures
        r@ == chars@,
{
    chars.iter().collect()
}

/// The line of `c` that starts at `s` and ends before the newline at or
/// after it, with a `\r` before that newline dropped; and that newline's index.
fn line_at(c: &Vec<char>, s: usize) -> (r: (String, usize))
    requires
        s < c@.len(),
    ensures
        r.1 == next_newline(c@, s as int),
        r.1 < c@.len() ==> r.0@ == strip_cr(c@.subrange(s as int, r.1 as int)),
        r.1 >= c@.len() ==> r.0@ == c@.subrange(s as int, c@.len() as int),
{
    let n = c.len();
    let mut e = s;
    while e < n && c[e] != '\n'
        invariant
            s <= e <= n,
            n == c@.len(),
            forall|j: int| s <= j < e ==> c@[j] != '\n',
        decreases n - e,
    {
        e = e + 1;
    }
    proof {
        lemma_next_newline(c@, s as int);
        if next_newline(c@, s as int) < e {
            assert(c@[next_newline(c@, s as int)] == '\n');
        }
        if e < n {
            assert(next_newline(c@, s as int) <= e);
        }
    }
    let mut end = e;
    if e < n && e > s && c[e - 1] == '\r' {
        end = e - 1;
    }
    let mut line: Vec<char> = Vec::new();
    let mut j = s;
    while j < end
        invariant
            s <= j <= end <= e <= n,
            n == c@.len(),
            line@ == c@.subrange(s as int, j as int),
        decreases end - j,
    {
        line.push(c[j]);
        j = j + 1;
        assert(line@ =~= c@.subrange(s as int, j as int));
    }
    proof {
        let l = c@.subrange(s as int, e as int);
        if e < n && e > s && c@[e - 1] == '\r' {
            assert(l.drop_last() =~= c@.subrange(s as int, end as int));
        }
    }
    (string_from_chars(&line), e)
}

/// The lines of `s`, as `str::lines` yields them.
pub fn split_lines(s: &str) -> (r: Vec<String>)
    ensures
        r@.len() == lines_of(s@).len(),
        forall|i: int| 0 <= i < r@.len() ==> (#[trigger] r@[i])@ == lines_of(s@)[i],
{
    let c = chars_of(s);
    let n = c.len();
    let mut out: Vec<String> = Vec::new();
    let mut pos: usize = 0;
    let ghost mut acc: Seq<Seq<char>> = Seq::empty();
    assert(lines_of(c@) =~= acc + lines_from(c@, 0));
    while pos < n
        invariant
            c@ == s@,
            n == c@.len(),
            pos <= n,
            out@.len() == acc.len(),
            forall|i: int| 0 <= i < out@.len() ==> (#[trigger] out@[i])@ == acc[i],
            lines_of(c@) == acc + lines_from(c@, pos as int),
        decreases n - pos,
    {
        let (line, e) = line_at(&c, pos);
        proof {
            lemma_next_newline(c@, pos as int);
            let rest = lines_from(c@, pos as int);
            if e >= n {
                assert(lines_from(c@, n as int) =~= Seq::<Seq<char>>::empty());
                assert(rest =~= seq![line@] + lines_from(c@, n as int));
            } else {
                assert(rest =~= seq![line@] + lines_from(c@, e + 1));
            }
            acc = acc.push(line@);
        }
        out.push(line);
        if e >= n {
            pos = n;
            assert(lines_of(c@) =~= acc + lines_from(c@, pos as int));
        } else {
            pos = e + 1;
            assert(lines_of(c@) =~= acc + lines_from(c@, pos as int));
        }
    }
    assert(lines_from(c@, n as int) =~= Seq::<Seq<char>>::empty());
    assert(lines_of(c@) =~= acc);
    out
}

proof fn lemma_join_push(ls: Seq<Seq<char>>, x: Seq<char>)
    requires
        ls.len() > 0,
    ensures
        join_lines(ls.push(x)) == join_lines(ls) + seq!['\n'] + x,
    decreases ls.len(),
{
    let lx = ls.push(x);
    assert(lx[0] == ls[0]);
    if ls.len() == 1 {
        assert(lx.drop_first() =~= seq![x]);
        assert(join_lines(seq![x]) == x);
        assert(join_lines(lx) =~= join_lines(ls) + seq!['\n'] + x);
    } else {
        lemma_join_push(ls.drop_first(), x);
        assert(lx.drop_first() =~= ls.drop_first().push(x));
        assert(join_lines(lx) == ls[0] + seq!['\n'] + join_lines(ls.drop_first().push(x)));
        assert(join_lines(ls) == ls[0] + seq!['\n'] + join_lines(ls.drop_first()));
        assert(join_lines(lx) =~= join_lines(ls) + seq!['\n'] + x);
    }
}

/// The strings `ls[from..]` joined with `\n` between them.
pub fn join_lines_from(ls: &Vec<String>, from: usize) -> (r: String)
    requires
        from <= ls@.len(),
    ensures
        r@ == join_lines(ls@.skip(from as int).map_values(|l: String| l@)),
{
    let ghost views = ls@.map_values(|l: String| l@);
    let mut out: Vec<char> = Vec::new();
    let mut i = from;
    assert(ls@.skip(from as int).map_values(|l: String| l@) =~= views.subrange(from as int, ls@.len() as int));
    assert(views.subrange(from as int, from as int) =~= Seq::<Seq<char>>::empty());
    while i < ls.len()
        invariant
            from <= i <= ls@.len(),
            views == ls@.map_values(|l: String| l@),
            out@ == join_lines(views.subrange(from as int, i as int)),
        decreases ls@.len() - i,
    {
        let cs = chars_of(ls[i].as_str());
        let ghost before = out@;
        if i > from {
            out.push('\n');
        }
        let mut j: usize = 0;
        let ghost mid = out@;
        while j < cs.len()
            invariant
                j <= cs@.len(),
                out@ == mid + cs@.take(j as int),
            decreases cs@.len() - j,
        {
            out.push(cs[j]);
            j = j + 1;
            assert(out@ =~= mid + cs@.take(j as int));
        }
        proof {
            assert(cs@.take(cs@.len() as int) =~= cs@);
            let prev = views.subrange(from as int, i as int);
            assert(views.subrange(from as int, i + 1) =~= prev.push(views[i as int]));
            if i > from {
                lemma_join_push(prev, views[i as int]);
            } else {
                assert(prev.push(views[i as int]) =~= seq![views[i as int]]);
            }
        }
        i = i + 1;
    }
    string_from_chars(&out)
}

/// The first character of `s` that is not whitespace, if any.
pub open spec fn first_non_ws(s: Seq<char>) -> Option<char> {
    if trim_front(s).len() > 0 {
        Some(trim_front(s)[0])
    } else {
        None
    }
}

/// The first character of `s` that is not whitespace, if any.
pub fn first_non_whitespace(s: &str) -> (r: Option<char>)
    ensures
        r == first_non_ws(s@),
{
    let c = chars_of(s);
    let mut i: usize = 0;
    assert(c@.skip(0) =~= c@);
    while i < c.len() && is_ws(c[i])
        invariant
            i <= c@.len(),
            c@ == s@,
            trim_front(s@) == trim_front(c@.skip(i as int)),
        decreases c@.len() - i,
    {
        assert(c@.skip(i as int).drop_first() =~= c@.skip(i + 1));
        i = i + 1;
    }
    if i < c.len() {
        Some(c[i])
    } else {
        assert(c@.skip(i as int) =~= Seq::<char>::empty());
        None
    }
}

} // verus!
