use vstd::prelude::*;

verus! {

/// Whether `c` has the Unicode White_Space property.
pub open spec fn white_space(c: char) -> bool {
    let u = c as u32;
    (0x9 <= u && u <= 0xd) || u == 0x20 || u == 0x85 || u == 0xa0 || u == 0x1680 || (0x2000 <= u
        && u <= 0x200a) || u == 0x2028 || u == 0x2029 || u == 0x202f || u == 0x205f || u == 0x3000
}

/// Whether `c` has the Unicode White_Space property.
pub fn is_white_space(c: char) -> (r: bool)
    ensures
        r == white_space(c),
{
    let u = c as u32;
    (0x9 <= u && u <= 0xd) || u == 0x20 || u == 0x85 || u == 0xa0 || u == 0x1680 || (0x2000 <= u
        && u <= 0x200a) || u == 0x2028 || u == 0x2029 || u == 0x202f || u == 0x205f || u == 0x3000
}

/// `s` without its leading and trailing white space.
pub open spec fn trimmed(s: Seq<char>) -> Seq<char>
    decreases s.len(),
{
    if s.len() == 0 {
        s
    } else if white_space(s[0]) {
        trimmed(s.drop_first())
    } else if white_space(s.last()) {
        trimmed(s.drop_last())
    } else {
        s
    }
}

proof fn lemma_trim_front(s: Seq<char>, a: int)
    requires
        0 <= a <= s.len(),
        forall|i: int| 0 <= i < a ==> white_space(#[trigger] s[i]),
    ensures
        trimmed(s) == trimmed(s.subrange(a, s.len() as int)),
    decreases a,
{
    if a == 0 {
        assert(s.subrange(0, s.len() as int) =~= s);
    } else {
        let t = s.drop_first();
        assert forall|i: int| 0 <= i < a - 1 implies white_space(#[trigger] t[i]) by {
            assert(t[i] == s[i + 1]);
        }
        lemma_trim_front(t, a - 1);
        assert(t.subrange(a - 1, t.len() as int) =~= s.subrange(a, s.len() as int));
    }
}

proof fn lemma_trim_back(s: Seq<char>, b: int)
    requires
        1 <= b <= s.len(),
        !white_space(s[0]),
        forall|i: int| b <= i < s.len() ==> white_space(#[trigger] s[i]),
    ensures
        trimmed(s) == trimmed(s.subrange(0, b)),
    decreases s.len() - b,
{
    if b == s.len() {
        assert(s.subrange(0, b) =~= s);
    } else {
        let t = s.drop_last();
        assert(white_space(s[s.len() - 1]));
        assert(trimmed(s) == trimmed(t));
        lemma_trim_back(t, b);
        assert(t.subrange(0, b) =~= s.subrange(0, b));
    }
}

/// `s` without its leading and trailing white space, as `str::trim` gives it.
pub fn trim(s: &str) -> (r: &str)
    ensures
        r@ == trimmed(s@),
{
    let n = s.unicode_len();
    let mut a: usize = 0;
    while a < n && is_white_space(s.get_char(a))
        invariant
            n == s@.len(),
            a <= n,
            forall|i: int| 0 <= i < a ==> white_space(#[trigger] s@[i]),
        decreases n - a,
    {
        a = a + 1;
    }
    let mut b: usize = n;
    while b > a && is_white_space(s.get_char(b - 1))
        invariant
            n == s@.len(),
            a <= b <= n,
            forall|i: int| b <= i < n ==> white_space(#[trigger] s@[i]),
        decreases b,
    {
        b = b - 1;
    }
    proof {
        lemma_trim_front(s@, a as int);
        let t = s@.subrange(a as int, n as int);
        if a < n {
            assert(!white_space(t[0]));
            assert forall|i: int| b - a <= i < t.len() implies white_space(#[trigger] t[i]) by {
                assert(t[i] == s@[i + a]);
            }
            lemma_trim_back(t, b - a);
            assert(t.subrange(0, b - a) =~= s@.subrange(a as int, b as int));
            let u = s@.subrange(a as int, b as int);
            assert(!white_space(u[0]));
            assert(!white_space(u.last()));
        } else {
            assert(t.len() == 0);
        }
    }
    s.substring_char(a, b)
}

/// Whether `a` is an ASCII upper-case letter whose lower-case form is `b`.
pub open spec fn lowers_to(a: char, b: char) -> bool {
    'A' <= a && a <= 'Z' && (a as u32) + 32 == (b as u32)
}

/// Two characters that are equal up to ASCII case.
pub open spec fn same_ignoring_ascii_case(a: char, b: char) -> bool {
    a == b || lowers_to(a, b) || lowers_to(b, a)
}

/// Two texts that are equal up to ASCII case, character by character.
pub open spec fn eq_ignoring_ascii_case(a: Seq<char>, b: Seq<char>) -> bool {
    &&& a.len() == b.len()
    &&& forall|i: int| 0 <= i < a.len() ==> same_ignoring_ascii_case(#[trigger] a[i], b[i])
}

fn char_eq_ignore_ascii_case(a: char, b: char) -> (r: bool)
    ensures
        r == same_ignoring_ascii_case(a, b),
{
    let x = a as u32;
    let y = b as u32;
    x == y || ('A' <= a && a <= 'Z' && x + 32 == y) || ('A' <= b && b <= 'Z' && y + 32 == x)
}

/// Whether the two texts are equal up to ASCII case.
pub fn eq_ignore_ascii_case(a: &str, b: &str) -> (r: bool)
    ensures
        r == eq_ignoring_ascii_case(a@, b@),
{
    let n = a.unicode_len();
    if n != b.unicode_len() {
        return false;
    }
    let mut i: usize = 0;
    while i < n
        invariant
            n == a@.len(),
            n == b@.len(),
            i <= n,
            forall|k: int| 0 <= k < i ==> same_ignoring_ascii_case(#[trigger] a@[k], b@[k]),
        decreases n - i,
    {
        if !char_eq_ignore_ascii_case(a.get_char(i), b.get_char(i)) {
            return false;
        }
        i = i + 1;
    }
    true
}

/// Whether `s` begins with `prefix`, compared exactly.
pub open spec fn begins_with(s: Seq<char>, prefix: Seq<char>) -> bool {
    prefix.len() <= s.len() && s.subrange(0, prefix.len() as int) == prefix
}

/// Whether `s` begins with `prefix`, compared exactly.
pub fn starts_with(s: &str, prefix: &str) -> (r: bool)
    ensures
        r == begins_with(s@, prefix@),
{
    let n = prefix.unicode_len();
    if n > s.unicode_len() {
        return false;
    }
    let mut i: usize = 0;
    while i < n
        invariant
            n == prefix@.len(),
            n <= s@.len(),
            i <= n,
            forall|k: int| 0 <= k < i ==> #[trigger] s@[k] == prefix@[k],
        decreases n - i,
    {
        if s.get_char(i) != prefix.get_char(i) {
            assert(s@.subrange(0, n as int)[i as int] != prefix@[i as int]);
            return false;
        }
        i = i + 1;
    }
    assert(s@.subrange(0, n as int) =~= prefix@);
    true
}

/// The first position at or after `i` that holds no white space (or the end).
pub open spec fn skip_space(s: Seq<char>, i: int) -> int
    decreases s.len() - i,
{
    if 0 <= i < s.len() && white_space(s[i]) {
        skip_space(s, i + 1)
    } else {
        i
    }
}

/// The first position at or after `i` that holds white space (or the end).
pub open spec fn skip_word(s: Seq<char>, i: int) -> int
    decreases s.len() - i,
{
    if 0 <= i < s.len() && !white_space(s[i]) {
        skip_word(s, i + 1)
    } else {
        i
    }
}

/// The word of index `n` (counting from 0) among the white-space separated
/// words of `s` that start at or after position `i`; `None` when there are
/// not that many.
pub open spec fn word_at(s: Seq<char>, i: int, n: nat) -> Option<Seq<char>>
    decreases n,
{
    let a = skip_space(s, i);
    if a >= s.len() {
        None
    } else {
        let b = skip_word(s, a);
        if n == 0 {
            Some(s.subrange(a, b))
        } else {
            word_at(s, b, (n - 1) as nat)
        }
    }
}

proof fn lemma_skip_space_bounds(s: Seq<char>, i: int)
    requires
        0 <= i <= s.len(),
    ensures
        i <= skip_space(s, i) <= s.len(),
        skip_space(s, i) < s.len() ==> !white_space(s[skip_space(s, i)]),
    decreases s.len() - i,
{
    if i < s.len() && white_space(s[i]) {
        lemma_skip_space_bounds(s, i + 1);
    }
}

proof fn lemma_skip_word_bounds(s: Seq<char>, i: int)
    requires
        0 <= i <= s.len(),
    ensures
        i <= skip_word(s, i) <= s.len(),
        i < s.len() && !white_space(s[i]) ==> i < skip_word(s, i),
    decreases s.len() - i,
{
    if i < s.len() && !white_space(s[i]) {
        lemma_skip_word_bounds(s, i + 1);
    }
}

fn skip_space_from(s: &str, n: usize, i: usize) -> (r: usize)
    requires
        n == s@.len(),
        i <= n,
    ensures
        r == skip_space(s@, i as int),
{
    let mut j = i;
    while j < n && is_white_space(s.get_char(j))
        invariant
            n == s@.len(),
            i <= j <= n,
            skip_space(s@, j as int) == skip_space(s@, i as int),
        decreases n - j,
    {
        j = j + 1;
    }
    j
}

fn skip_word_from(s: &str, n: usize, i: usize) -> (r: usize)
    requires
        n == s@.len(),
        i <= n,
    ensures
        r == skip_word(s@, i as int),
{
    let mut j = i;
    while j < n && !is_white_space(s.get_char(j))
        invariant
            n == s@.len(),
            i <= j <= n,
            skip_word(s@, j as int) == skip_word(s@, i as int),
        decreases n - j,
    {
        j = j + 1;
    }
    j
}

/// The word of index `n` (counting from 0) among the white-space separated
/// words of `s`, as `str::split_whitespace` yields them.
pub fn nth_word(s: &str, n: usize) -> (r: Option<&str>)
    ensures
        match r {
            None => word_at(s@, 0, n as nat) is None,
            Some(w) => word_at(s@, 0, n as nat) == Some(w@),
        },
{
    let len = s.unicode_len();
    let mut pos: usize = 0;
    let mut k: usize = n;
    loop
        invariant
            len == s@.len(),
            pos <= len,
            word_at(s@, 0, n as nat) == word_at(s@, pos as int, k as nat),
        decreases len - pos,
    {
        let a = skip_space_from(s, len, pos);
        proof {
            lemma_skip_space_bounds(s@, pos as int);
        }
        if a >= len {
            return None;
        }
        let b = skip_word_from(s, len, a);
        proof {
            lemma_skip_word_bounds(s@, a as int);
        }
        if k == 0 {
            return Some(s.substring_char(a, b));
        }
        pos = b;
        k = k - 1;
    }
}

} // verus!
