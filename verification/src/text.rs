//! Character-level helpers shared by the framing and routing code.
//!
//! Text is modelled as `Seq<char>`. The executable functions work on a slice
//! of characters, which `chars_of` produces from a `&str` in one pass.

use vstd::prelude::*;

verus! {

/// The characters that count as white space: the Unicode `White_Space` set.
pub open spec fn is_space(c: char) -> bool {
    let n = c as u32;
    ||| 0x09 <= n <= 0x0D
    ||| n == 0x20
    ||| n == 0x85
    ||| n == 0xA0
    ||| n == 0x1680
    ||| 0x2000 <= n <= 0x200A
    ||| n == 0x2028
    ||| n == 0x2029
    ||| n == 0x202F
    ||| n == 0x205F
    ||| n == 0x3000
}

/// Tells whether `c` is white space.
pub fn is_whitespace(c: char) -> (b: bool)
    ensures
        b == is_space(c),
{
    let n: u32 = c as u32;
    (0x09 <= n && n <= 0x0D) || n == 0x20 || n == 0x85 || n == 0xA0 || n == 0x1680 || (0x2000 <= n
        && n <= 0x200A) || n == 0x2028 || n == 0x2029 || n == 0x202F || n == 0x205F || n == 0x3000
}

/// The sets of characters at which a scan of a request stops.
#[derive(Clone, Copy, Debug)]
pub enum CharClass {
    /// `/`
    Slash,
    /// The line feed that ends a line.
    LineFeed,
    /// `:` or a line feed: the end of one field of a header line.
    FieldEnd,
    /// White space, or `/`: the end of a path segment.
    SegmentEnd,
}

impl CharClass {
    /// Whether `c` belongs to the class.
    pub open spec fn has(self, c: char) -> bool {
        match self {
            CharClass::Slash => c == '/',
            CharClass::LineFeed => c == '\n',
            CharClass::FieldEnd => c == ':' || c == '\n',
            CharClass::SegmentEnd => c == '/' || is_space(c),
        }
    }

    /// Tells whether `c` belongs to the class.
    pub fn contains(self, c: char) -> (b: bool)
        ensures
            b == self.has(c),
    {
        match self {
            CharClass::Slash => c == '/',
            CharClass::LineFeed => c == '\n',
            CharClass::FieldEnd => c == ':' || c == '\n',
            CharClass::SegmentEnd => c == '/' || is_whitespace(c),
        }
    }
}

/// The index of the first character of `class` in `s` at or after `from`;
/// the length of `s` where there is none.
pub open spec fn position(s: Seq<char>, from: int, class: CharClass) -> int
    decreases s.len() - from,
{
    if from < 0 || from >= s.len() {
        s.len() as int
    } else if class.has(s[from]) {
        from
    } else {
        position(s, from + 1, class)
    }
}

/// `position` is the least index at or after `from` that holds a character
/// of the class, and nothing before it does.
pub proof fn lemma_position(s: Seq<char>, from: int, class: CharClass)
    requires
        0 <= from <= s.len(),
    ensures
        from <= position(s, from, class) <= s.len(),
        position(s, from, class) < s.len() ==> class.has(s[position(s, from, class)]),
        forall|k: int| from <= k < position(s, from, class) ==> !class.has(#[trigger] s[k]),
    decreases s.len() - from,
{
    if from < s.len() && !class.has(s[from]) {
        lemma_position(s, from + 1, class);
    }
}

/// An index that holds a character of the class, with none between `from`
/// and it, is the `position`.
pub proof fn lemma_position_is(s: Seq<char>, from: int, class: CharClass, at: int)
    requires
        0 <= from <= at <= s.len(),
        at < s.len() ==> class.has(s[at]),
        forall|k: int| from <= k < at ==> !class.has(#[trigger] s[k]),
    ensures
        position(s, from, class) == at,
    decreases at - from,
{
    if from < at {
        assert(!class.has(s[from]));
        lemma_position_is(s, from + 1, class, at);
    }
}

/// Finds the first character of `class` in `s` at or after `from`.
pub fn find_class(s: &[char], from: usize, class: CharClass) -> (at: usize)
    ensures
        at == position(s@, from as int, class),
{
    let n = s.len();
    if from >= n {
        return n;
    }
    let mut i: usize = from;
    while i < n && !class.contains(s[i])
        invariant
            from <= i <= n,
            n == s@.len(),
            forall|k: int| from <= k < i ==> !class.has(#[trigger] s@[k]),
        decreases n - i,
    {
        i += 1;
    }
    proof {
        lemma_position_is(s@, from as int, class, i as int);
    }
    i
}

/// Whether `p` stands in `s` at index `at`.
pub open spec fn has_prefix_at(s: Seq<char>, at: int, p: Seq<char>) -> bool {
    &&& 0 <= at
    &&& at + p.len() <= s.len()
    &&& s.subrange(at, at + p.len()) == p
}

/// Whether `s` begins with `p`.
pub open spec fn has_prefix(s: Seq<char>, p: Seq<char>) -> bool {
    has_prefix_at(s, 0, p)
}

/// Tells whether `p` stands in `s` at index `at`.
pub fn starts_with_at(s: &[char], at: usize, p: &[char]) -> (b: bool)
    ensures
        b == has_prefix_at(s@, at as int, p@),
{
    let n = s.len();
    let m = p.len();
    if at > n || m > n - at {
        return false;
    }
    let mut k: usize = 0;
    while k < m
        invariant
            k <= m,
            m == p@.len(),
            n == s@.len(),
            at + m <= n,
            forall|j: int| 0 <= j < k ==> s@[at + j] == p@[j],
        decreases m - k,
    {
        if s[at + k] != p[k] {
            proof {
                assert(s@.subrange(at as int, at + m)[k as int] == s@[at + k]);
            }
            return false;
        }
        k += 1;
    }
    proof {
        assert(s@.subrange(at as int, at + m) =~= p@);
    }
    true
}

/// The index of the first place at or after `from` where `p` stands in `s`.
pub open spec fn find_from(s: Seq<char>, p: Seq<char>, from: int) -> Option<int>
    decreases s.len() - from + 1,
{
    if from < 0 || from + p.len() > s.len() {
        None
    } else if has_prefix_at(s, from, p) {
        Some(from)
    } else {
        find_from(s, p, from + 1)
    }
}

/// The index of the first place where `p` stands in `s`.
pub open spec fn find(s: Seq<char>, p: Seq<char>) -> Option<int> {
    find_from(s, p, 0)
}

/// `find_from` gives the least match at or after `from`, and `None` exactly
/// when there is no match there.
pub proof fn lemma_find_from(s: Seq<char>, p: Seq<char>, from: int)
    requires
        0 <= from,
    ensures
        match find_from(s, p, from) {
            Some(at) => {
                &&& from <= at
                &&& has_prefix_at(s, at, p)
                &&& forall|k: int| from <= k < at ==> !has_prefix_at(s, k, p)
            },
            None => forall|k: int| from <= k ==> !has_prefix_at(s, k, p),
        },
    decreases s.len() - from + 1,
{
    if from + p.len() <= s.len() && !has_prefix_at(s, from, p) {
        lemma_find_from(s, p, from + 1);
    }
}

/// Finds the first place where `p` stands in `s`.
pub fn find_text(s: &[char], p: &[char]) -> (r: Option<usize>)
    ensures
        match r {
            Some(at) => find(s@, p@) == Some(at as int),
            None => find(s@, p@) is None,
        },
{
    let n = s.len();
    let m = p.len();
    if m > n {
        return None;
    }
    let last = n - m;
    let mut i: usize = 0;
    loop
        invariant
            n == s@.len(),
            m == p@.len(),
            last == n - m,
            i <= last,
            find(s@, p@) == find_from(s@, p@, i as int),
        decreases last - i,
    {
        if starts_with_at(s, i, p) {
            return Some(i);
        }
        if i == last {
            assert(find_from(s@, p@, i + 1) is None);
            return None;
        }
        i += 1;
    }
}

/// `s` without the white space at its two ends.
pub open spec fn trimmed(s: Seq<char>) -> Seq<char>
    decreases s.len(),
{
    if s.len() > 0 && is_space(s.first()) {
        trimmed(s.drop_first())
    } else if s.len() > 0 && is_space(s.last()) {
        trimmed(s.drop_last())
    } else {
        s
    }
}

/// A stretch of `s` with white space before it up to `a`, white space after
/// it from `b` on, and none at its own two ends, is `s` trimmed.
pub proof fn lemma_trimmed_is(s: Seq<char>, a: int, b: int)
    requires
        0 <= a <= b <= s.len(),
        forall|k: int| 0 <= k < a ==> is_space(#[trigger] s[k]),
        forall|k: int| b <= k < s.len() ==> is_space(#[trigger] s[k]),
        a < b ==> !is_space(s[a]) && !is_space(s[b - 1]),
    ensures
        trimmed(s) == s.subrange(a, b),
    decreases s.len(),
{
    if s.len() > 0 && is_space(s.first()) {
        let t = s.drop_first();
        if a == 0 {
            // Only white space is left: `a == b`, and `t` trims to nothing.
            assert(a == b);
            assert forall|k: int| 0 <= k < t.len() implies is_space(#[trigger] t[k]) by {
                assert(t[k] == s[k + 1]);
            }
            lemma_trimmed_is(t, 0, 0);
            assert(t.subrange(0, 0) =~= s.subrange(a, b));
        } else {
            assert forall|k: int| 0 <= k < a - 1 implies is_space(#[trigger] t[k]) by {
                assert(t[k] == s[k + 1]);
            }
            assert forall|k: int| b - 1 <= k < t.len() implies is_space(#[trigger] t[k]) by {
                assert(t[k] == s[k + 1]);
            }
            lemma_trimmed_is(t, a - 1, b - 1);
            assert(t.subrange(a - 1, b - 1) =~= s.subrange(a, b));
        }
    } else if s.len() > 0 && is_space(s.last()) {
        let t = s.drop_last();
        assert(a == 0);
        assert(b < s.len());
        assert forall|k: int| b <= k < t.len() implies is_space(#[trigger] t[k]) by {
            assert(t[k] == s[k]);
        }
        lemma_trimmed_is(t, a, b);
        assert(t.subrange(a, b) =~= s.subrange(a, b));
    } else {
        assert(a == 0);
        assert(b == s.len());
        assert(s.subrange(a, b) =~= s);
    }
}

/// Finds the stretch of `s` between `from` and `to` that is left when the
/// white space at its two ends is taken away.
pub fn trim_range(s: &[char], from: usize, to: usize) -> (r: (usize, usize))
    requires
        from <= to <= s@.len(),
    ensures
        from <= r.0 <= r.1 <= to,
        s@.subrange(r.0 as int, r.1 as int) == trimmed(s@.subrange(from as int, to as int)),
{
    let mut a: usize = from;
    while a < to && is_whitespace(s[a])
        invariant
            from <= a <= to <= s@.len(),
            forall|k: int| from <= k < a ==> is_space(#[trigger] s@[k]),
        decreases to - a,
    {
        a += 1;
    }
    let mut b: usize = to;
    while b > a && is_whitespace(s[b - 1])
        invariant
            a <= b <= to <= s@.len(),
            forall|k: int| b <= k < to ==> is_space(#[trigger] s@[k]),
        decreases b - a,
    {
        b -= 1;
    }
    proof {
        let t = s@.subrange(from as int, to as int);
        assert forall|k: int| 0 <= k < a - from implies is_space(#[trigger] t[k]) by {
            assert(t[k] == s@[from + k]);
        }
        assert forall|k: int| b - from <= k < t.len() implies is_space(#[trigger] t[k]) by {
            assert(t[k] == s@[from + k]);
        }
        lemma_trimmed_is(t, a - from, b - from);
        assert(t.subrange(a - from, b - from) =~= s@.subrange(a as int, b as int));
    }
    (a, b)
}

/// The characters of `s`, in order.
pub fn chars_of(s: &str) -> (v: Vec<char>)
    ensures
        v@ == s@,
{
    let mut v: Vec<char> = Vec::new();
    for c in it: s.chars()
        invariant
            v@ == it.seq().take(it.index()),
            it.seq() == s@,
    {
        v.push(c);
    }
    v
}

} // verus!
