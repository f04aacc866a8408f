//! Translation key extraction from Fluent (`.ftl`) files, used to check
//! that every locale defines the same keys.
//!
//! A key is the left side of a top-level `key-name = value` line: lines
//! that are empty or comments (`#`) are ignored, as are indented lines
//! (continuations of multi-line values) and left sides that are not made
//! of lowercase ASCII letters and `-`.

use vstd::prelude::*;
use vstd::string::{StrSliceExecFns, StringExecFns};
use crate::text::{chars_of, is_whitespace, is_ws, trim_front};

verus! {

/// Lowercase ASCII letter or `-`.
pub open spec fn is_key_char(c: char) -> bool {
    ('a' <= c && c <= 'z') || c == '-'
}

/// `s` without trailing whitespace.
pub open spec fn trim_back(s: Seq<char>) -> Seq<char>
    decreases s.len(),
{
    if s.len() > 0 && is_whitespace(s.last()) {
        trim_back(s.drop_last())
    } else {
        s
    }
}

/// `s` without leading and trailing whitespace (`str::trim`).
pub open spec fn trim(s: Seq<char>) -> Seq<char> {
    trim_back(trim_front(s))
}

/// Position of the first `=` in `s`.
pub open spec fn first_equals(s: Seq<char>) -> Option<int> {
    if exists|i: int| 0 <= i < s.len() && s[i] == '=' {
        Some(choose|i: int| 0 <= i < s.len() && s[i] == '=' && forall|j: int| 0 <= j < i ==> s[j] != '=')
    } else {
        None
    }
}

/// The key a line defines, if any.
pub open spec fn line_key(line: Seq<char>) -> Option<Seq<char>> {
    let t = trim(line);
    if t.len() == 0 || t[0] == '#' {
        None
    } else {
        match first_equals(t) {
            None => None,
            Some(p) => {
                let k = trim(t.subrange(0, p));
                if (line.len() > 0 && line[0] == ' ') || k.len() == 0
                    || !(forall|i: int| 0 <= i < k.len() ==> is_key_char(k[i])) {
                    None
                } else {
                    Some(k)
                }
            },
        }
    }
}

/// `[s, e)` is a line of `c`: it starts at the beginning or after a
/// newline, ends at the end or at a newline, and holds no newline.
pub open spec fn is_line(c: Seq<char>, s: int, e: int) -> bool {
    &&& 0 <= s <= e <= c.len()
    &&& (s == 0 || c[s - 1] == '\n')
    &&& (e == c.len() || c[e] == '\n')
    &&& forall|j: int| s <= j < e ==> c[j] != '\n'
}

/// Keys defined by lines of `c` that start before `bound`.
pub open spec fn keys_before(c: Seq<char>, bound: int) -> Set<Seq<char>> {
    Set::new(|k: Seq<char>| exists|s: int, e: int| #[trigger] is_line(c, s, e) && s < bound && line_key(c.subrange(s, e)) == Some(k))
}

/// Keys defined by the file contents `c`.
pub open spec fn ftl_keys(c: Seq<char>) -> Set<Seq<char>> {
    keys_before(c, c.len() + 1int)
}

/// The strings' contents as a set.
pub open spec fn string_set(v: Seq<String>) -> Set<Seq<char>> {
    Set::new(|k: Seq<char>| exists|i: int| 0 <= i < v.len() && (#[trigger] v[i])@ == k)
}

/// No two strings have the same contents.
pub open spec fn distinct_strings(v: Seq<String>) -> bool {
    forall|i: int, j: int| 0 <= i < v.len() && 0 <= j < v.len() && i != j ==> (#[trigger] v[i])@ != (#[trigger] v[j])@
}

proof fn lemma_trim_front_step(c: Seq<char>, i: int, e: int)
    requires
        0 <= i < e <= c.len(),
        is_whitespace(c[i]),
    ensures
        trim_front(c.subrange(i, e)) == trim_front(c.subrange(i + 1, e)),
{
    assert(c.subrange(i, e).drop_first() =~= c.subrange(i + 1, e));
}

proof fn lemma_trim_back_step(c: Seq<char>, s: int, j: int)
    requires
        0 <= s < j <= c.len(),
        is_whitespace(c[j - 1]),
    ensures
        trim_back(c.subrange(s, j)) == trim_back(c.subrange(s, j - 1)),
{
    assert(c.subrange(s, j).drop_last() =~= c.subrange(s, j - 1));
}

/// Bounds `[lo, hi)` of `trim(c[s..e])` within `c`.
fn trim_bounds(c: &Vec<char>, s: usize, e: usize) -> (r: (usize, usize))
    requires
        s <= e <= c@.len(),
    ensures
        s <= r.0 <= r.1 <= e,
        trim(c@.subrange(s as int, e as int)) == c@.subrange(r.0 as int, r.1 as int),
{
    let mut lo = s;
    while lo < e && is_ws(c[lo])
        invariant
            s <= lo <= e <= c@.len(),
            trim_front(c@.subrange(s as int, e as int)) == trim_front(c@.subrange(lo as int, e as int)),
        decreases e - lo,
    {
        proof { lemma_trim_front_step(c@, lo as int, e as int); }
        lo = lo + 1;
    }
    assert(trim_front(c@.subrange(lo as int, e as int)) == c@.subrange(lo as int, e as int));
    let mut hi = e;
    while hi > lo && is_ws(c[hi - 1])
        invariant
            lo <= hi <= e <= c@.len(),
            trim_back(c@.subrange(lo as int, e as int)) == trim_back(c@.subrange(lo as int, hi as int)),
        decreases hi - lo,
    {
        proof { lemma_trim_back_step(c@, lo as int, hi as int); }
        hi = hi - 1;
    }
    assert(trim_back(c@.subrange(lo as int, hi as int)) == c@.subrange(lo as int, hi as int));
    (lo, hi)
}

/// Bounds of the key defined by the line `[s, e)` of `c`, if any.
fn key_bounds(c: &Vec<char>, s: usize, e: usize) -> (r: Option<(usize, usize)>)
    requires
        s <= e <= c@.len(),
    ensures
        match r {
            Some((a, b)) => a <= b <= c@.len() && line_key(c@.subrange(s as int, e as int)) == Some(c@.subrange(a as int, b as int)),
            None => line_key(c@.subrange(s as int, e as int)) is None,
        },
{
    let ghost line = c@.subrange(s as int, e as int);
    let (lo, hi) = trim_bounds(c, s, e);
    let ghost t = c@.subrange(lo as int, hi as int);
    if lo == hi || c[lo] == '#' {
        return None;
    }
    let mut p = lo;
    while p < hi && c[p] != '='
        invariant
            lo <= p <= hi <= c@.len(),
            forall|j: int| lo <= j < p ==> c@[j] != '=',
        decreases hi - p,
    {
        p = p + 1;
    }
    if p == hi {
        assert(!(exists|i: int| 0 <= i < t.len() && t[i] == '=')) by {
            assert forall|i: int| 0 <= i < t.len() implies t[i] != '=' by {
                assert(t[i] == c@[lo + i]);
            }
        }
        return None;
    }
    proof {
        let q = (p - lo) as int;
        assert(t[q] == '=');
        let w = choose|i: int| 0 <= i < t.len() && t[i] == '=' && forall|j: int| 0 <= j < i ==> t[j] != '=';
        if w < q {
            assert(t[w] == c@[lo + w]);
        } else if w > q {
            assert(t[q] != '=');
        }
        assert(first_equals(t) == Some(q));
        assert(t.subrange(0, q) =~= c@.subrange(lo as int, p as int));
    }
    let (klo, khi) = trim_bounds(c, lo, p);
    if (s < e && c[s] == ' ') || klo == khi {
        return None;
    }
    let mut k = klo;
    while k < khi
        invariant
            klo <= k <= khi <= c@.len(),
            forall|j: int| klo <= j < k ==> is_key_char(c@[j]),
        ensures
            klo <= k <= khi,
            forall|j: int| klo <= j < k ==> is_key_char(c@[j]),
            k < khi ==> !is_key_char(c@[k as int]),
        decreases khi - k,
    {
        let ch = c[k];
        if !(('a' <= ch && ch <= 'z') || ch == '-') {
            break;
        }
        k = k + 1;
    }
    if k < khi {
        proof {
            let kk = c@.subrange(klo as int, khi as int);
            assert(kk[(k - klo) as int] == c@[k as int]);
        }
        return None;
    }
    proof {
        let kk = c@.subrange(klo as int, khi as int);
        assert forall|i: int| 0 <= i < kk.len() implies is_key_char(kk[i]) by {
            assert(kk[i] == c@[klo + i]);
        }
    }
    Some((klo, khi))
}

proof fn lemma_lines_are_unique(c: Seq<char>, s: int, e: int, e2: int)
    requires
        is_line(c, s, e),
        is_line(c, s, e2),
    ensures
        e == e2,
{
    if e2 < e {
        assert(c[e2] == '\n');
    } else if e < e2 {
        assert(c[e] == '\n');
    }
}

/// Taking the line `[s, e)` into account moves the bound past it.
proof fn lemma_keys_step(c: Seq<char>, s: int, e: int, k: Seq<char>)
    requires
        is_line(c, s, e),
    ensures
        keys_before(c, e + 1).contains(k) <==> (keys_before(c, s).contains(k) || line_key(c.subrange(s, e)) == Some(k)),
{
    if keys_before(c, e + 1).contains(k) {
        let (s2, e2) = choose|s2: int, e2: int| #[trigger] is_line(c, s2, e2) && s2 < e + 1 && line_key(c.subrange(s2, e2)) == Some(k);
        if s2 >= s {
            if s2 > s {
                assert(c[s2 - 1] == '\n');
            }
            lemma_lines_are_unique(c, s, e, e2);
        }
    }
    if line_key(c.subrange(s, e)) == Some(k) {
        assert(is_line(c, s, e));
    }
    if keys_before(c, s).contains(k) {
        let (s2, e2) = choose|s2: int, e2: int| #[trigger] is_line(c, s2, e2) && s2 < s && line_key(c.subrange(s2, e2)) == Some(k);
        assert(is_line(c, s2, e2));
    }
}

proof fn lemma_string_set_push(v: Seq<String>, x: String)
    ensures
        string_set(v.push(x)) == string_set(v).insert(x@),
{
    assert forall|k: Seq<char>| string_set(v.push(x)).contains(k) <==> string_set(v).insert(x@).contains(k) by {
        if string_set(v.push(x)).contains(k) {
            let i = choose|i: int| 0 <= i < v.push(x).len() && (#[trigger] v.push(x)[i])@ == k;
            if i < v.len() {
                assert(v[i] == v.push(x)[i]);
            }
        }
        if string_set(v).contains(k) {
            let i = choose|i: int| 0 <= i < v.len() && (#[trigger] v[i])@ == k;
            assert(v.push(x)[i] == v[i]);
        }
        if k == x@ {
            assert(v.push(x)[v.len() as int] == x);
        }
    }
    assert(string_set(v.push(x)) =~= string_set(v).insert(x@));
}

proof fn lemma_string_set_len(v: Seq<String>)
    requires
        distinct_strings(v),
    ensures
        string_set(v).finite(),
        string_set(v).len() == v.len(),
    decreases v.len(),
{
    if v.len() == 0 {
        assert(string_set(v) =~= Set::<Seq<char>>::empty());
    } else {
        let w = v.drop_last();
        assert(w.push(v.last()) =~= v);
        assert forall|i: int, j: int| 0 <= i < w.len() && 0 <= j < w.len() && i != j implies (#[trigger] w[i])@ != (#[trigger] w[j])@ by {
            assert(w[i] == v[i] && w[j] == v[j]);
        }
        lemma_string_set_len(w);
        lemma_string_set_push(w, v.last());
        if string_set(w).contains(v.last()@) {
            let i = choose|i: int| 0 <= i < w.len() && (#[trigger] w[i])@ == v.last()@;
            assert(v[i] == w[i]);
            assert(v[v.len() - 1] == v.last());
        }
    }
}

/// Whether one of `keys` has the contents of `k`.
fn holds_string(keys: &Vec<String>, k: &String) -> (r: bool)
    ensures
        r == string_set(keys@).contains(k@),
{
    let mut i: usize = 0;
    while i < keys.len()
        invariant
            i <= keys@.len(),
            forall|j: int| 0 <= j < i ==> (#[trigger] keys@[j])@ != k@,
        decreases keys@.len() - i,
    {
        if keys[i] == *k {
            assert(keys@[i as int]@ == k@);
            return true;
        }
        i = i + 1;
    }
    proof {
        if string_set(keys@).contains(k@) {
            let j = choose|j: int| 0 <= j < keys@.len() && (#[trigger] keys@[j])@ == k@;
            assert(keys@[j]@ != k@);
        }
    }
    false
}

/// Adds `k` to `keys` unless a string with the same contents is there.
fn insert_string(keys: &mut Vec<String>, k: String)
    requires
        distinct_strings(old(keys)@),
    ensures
        distinct_strings(final(keys)@),
        string_set(final(keys)@) == string_set(old(keys)@).insert(k@),
{
    if holds_string(keys, &k) {
        assert(string_set(keys@).insert(k@) =~= string_set(keys@));
    } else {
        proof {
            lemma_string_set_push(keys@, k);
            let v = keys@.push(k);
            assert forall|i: int, j: int| 0 <= i < v.len() && 0 <= j < v.len() && i != j implies (#[trigger] v[i])@ != (#[trigger] v[j])@ by {
                if i == keys@.len() {
                    assert(v[j] == keys@[j]);
                } else if j == keys@.len() {
                    assert(v[i] == keys@[i]);
                } else {
                    assert(v[i] == keys@[i] && v[j] == keys@[j]);
                }
            }
        }
        keys.push(k);
    }
}

/// The set of keys a Fluent file defines.
pub struct TranslationKeys {
    keys: Vec<String>,
}

impl View for TranslationKeys {
    type V = Set<Seq<char>>;

    closed spec fn view(&self) -> Set<Seq<char>> {
        string_set(self.keys@)
    }
}

impl TranslationKeys {
    #[verifier::type_invariant]
    spec fn no_duplicates(self) -> bool {
        distinct_strings(self.keys@)
    }

    /// Number of distinct keys.
    pub fn len(&self) -> (r: usize)
        ensures
            self@.finite(),
            r == self@.len(),
    {
        proof {
            use_type_invariant(self);
            lemma_string_set_len(self.keys@);
        }
        self.keys.len()
    }

    /// Whether `key` is one of the keys.
    pub fn contains(&self, key: &str) -> (r: bool)
        ensures
            r == self@.contains(key@),
    {
        let k = String::from_str(key);
        holds_string(&self.keys, &k)
    }

    /// The keys of `self` that `other` lacks, each once.
    pub fn difference(&self, other: &TranslationKeys) -> (r: Vec<String>)
        ensures
            string_set(r@) == self@.difference(other@),
            distinct_strings(r@),
    {
        proof { use_type_invariant(self); }
        let mut out: Vec<String> = Vec::new();
        let mut i: usize = 0;
        assert(string_set(out@) =~= Set::<Seq<char>>::empty());
        while i < self.keys.len()
            invariant
                i <= self.keys@.len(),
                distinct_strings(out@),
                string_set(out@) == string_set(self.keys@.take(i as int)).difference(other@),
            decreases self.keys@.len() - i,
        {
            let k = self.keys[i].clone();
            proof {
                assert(self.keys@.take(i + 1) =~= self.keys@.take(i as int).push(self.keys@[i as int]));
                lemma_string_set_push(self.keys@.take(i as int), self.keys@[i as int]);
            }
            if !other.contains(k.as_str()) {
                insert_string(&mut out, k);
            }
            i = i + 1;
            assert(string_set(out@) =~= string_set(self.keys@.take(i as int)).difference(other@));
        }
        assert(self.keys@.take(i as int) =~= self.keys@);
        out
    }
}

/// The keys defined by the Fluent file contents `content`.
pub fn extract_translation_keys(content: &str) -> (r: TranslationKeys)
    ensures
        r@ == ftl_keys(content@),
{
    let c = chars_of(content);
    let n = c.len();
    let mut keys: Vec<String> = Vec::new();
    let mut s: usize = 0;
    assert(string_set(keys@) =~= keys_before(c@, 0)) by {
        assert forall|k: Seq<char>| !keys_before(c@, 0).contains(k) by {}
    }
    loop
        invariant_except_break
            string_set(keys@) == keys_before(c@, s as int),
        invariant
            c@ == content@,
            n == c@.len(),
            s <= n,
            s == 0 || c@[s - 1] == '\n',
            distinct_strings(keys@),
        ensures
            string_set(keys@) == keys_before(c@, n + 1int),
        decreases n - s,
    {
        let mut e = s;
        while e < n && c[e] != '\n'
            invariant
                s <= e <= n,
                n == c@.len(),
                forall|j: int| s <= j < e ==> c@[j] != '\n',
            decreases n - e,
        {
            e = e + 1;
        }
        let ghost before = string_set(keys@);
        let ghost line = c@.subrange(s as int, e as int);
        match key_bounds(&c, s, e) {
            Some((a, b)) => {
                let k = String::from_str(content.substring_char(a, b));
                insert_string(&mut keys, k);
            },
            None => {},
        }
        proof {
            assert(is_line(c@, s as int, e as int));
            assert forall|k: Seq<char>| string_set(keys@).contains(k) <==> keys_before(c@, e + 1).contains(k) by {
                lemma_keys_step(c@, s as int, e as int, k);
            }
            assert(string_set(keys@) =~= keys_before(c@, e + 1));
        }
        if e == n {
            break;
        }
        s = e + 1;
    }
    TranslationKeys { keys }
}

} // verus!
