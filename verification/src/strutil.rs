use vstd::prelude::*;
use vstd::string::*;

verus! {

/// Relies on `String::push`: appends exactly the given character.
#[verifier::external_body]
pub(crate) fn push_char(s: &mut String, c: char)
    ensures
        final(s)@ == old(s)@.push(c),
{
    s.push(c);
}

/// Collects the characters of a string slice into a vector.
pub fn chars_of(s: &str) -> (r: Vec<char>)
    ensures
        r@ == s@,
{
    let n = s.unicode_len();
    let mut r: Vec<char> = Vec::new();
    let mut i: usize = 0;
    while i < n
        invariant
            i <= n,
            n == s@.len(),
            r@ == s@.take(i as int),
        decreases n - i,
    {
        r.push(s.get_char(i));
        proof {
            assert(r@ =~= s@.take(i + 1));
        }
        i = i + 1;
    }
    proof {
        assert(s@.take(n as int) =~= s@);
    }
    r
}

/// Builds an owned string out of a vector of characters.
pub fn string_of_chars(v: &Vec<char>) -> (r: String)
    ensures
        r@ == v@,
{
    let mut r = String::new();
    let mut i: usize = 0;
    while i < v.len()
        invariant
            i <= v@.len(),
            r@ == v@.take(i as int),
        decreases v@.len() - i,
    {
        push_char(&mut r, v[i]);
        proof {
            assert(r@ =~= v@.take(i + 1));
        }
        i = i + 1;
    }
    proof {
        assert(v@.take(v@.len() as int) =~= v@);
    }
    r
}

/// ASCII lowercase of one character; anything outside `A..=Z` is unchanged.
pub open spec fn spec_lower_char(c: char) -> char {
    if 'A' <= c && c <= 'Z' {
        ((c as u8) + 32) as char
    } else {
        c
    }
}

/// ASCII lowercase of a whole character sequence.
pub open spec fn spec_lower(s: Seq<char>) -> Seq<char> {
    s.map_values(|c: char| spec_lower_char(c))
}

/// ASCII-lowercases one character.
pub fn lower_char(c: char) -> (r: char)
    ensures
        r == spec_lower_char(c),
{
    if 'A' <= c && c <= 'Z' {
        ((c as u8) + 32) as char
    } else {
        c
    }
}

/// ASCII-lowercases a vector of characters.
pub fn lower_chars(v: &Vec<char>) -> (r: Vec<char>)
    ensures
        r@ == spec_lower(v@),
{
    let mut r: Vec<char> = Vec::new();
    let mut i: usize = 0;
    while i < v.len()
        invariant
            i <= v@.len(),
            r@ == spec_lower(v@.take(i as int)),
        decreases v@.len() - i,
    {
        r.push(lower_char(v[i]));
        proof {
            assert(r@ =~= spec_lower(v@.take(i + 1)));
        }
        i = i + 1;
    }
    proof {
        assert(v@.take(v@.len() as int) =~= v@);
    }
    r
}

/// The whitespace characters stripped from around accelerator tokens.
pub open spec fn spec_is_space(c: char) -> bool {
    c == ' ' || c == '\t' || c == '\r' || c == '\n'
}

/// Whether the character is token-surrounding whitespace.
pub fn is_space(c: char) -> (r: bool)
    ensures
        r == spec_is_space(c),
{
    c == ' ' || c == '\t' || c == '\r' || c == '\n'
}

/// The sequence without its leading whitespace.
pub open spec fn spec_trim_front(s: Seq<char>) -> Seq<char>
    decreases s.len(),
{
    if s.len() > 0 && spec_is_space(s[0]) {
        spec_trim_front(s.drop_first())
    } else {
        s
    }
}

/// The sequence without its trailing whitespace.
pub open spec fn spec_trim_back(s: Seq<char>) -> Seq<char>
    decreases s.len(),
{
    if s.len() > 0 && spec_is_space(s.last()) {
        spec_trim_back(s.drop_last())
    } else {
        s
    }
}

/// The sequence without leading and trailing whitespace.
pub open spec fn spec_trim(s: Seq<char>) -> Seq<char> {
    spec_trim_back(spec_trim_front(s))
}

/// Skipping `k` all-whitespace characters from the front is what
/// front-trimming does, as long as the character after them is not space.
proof fn lemma_trim_front_skip(s: Seq<char>, k: int)
    requires
        0 <= k <= s.len(),
        forall|j: int| 0 <= j < k ==> spec_is_space(s[j]),
        k < s.len() ==> !spec_is_space(s[k]),
    ensures
        spec_trim_front(s) == s.skip(k),
    decreases k,
{
    if k == 0 {
        assert(s.skip(0) =~= s);
    } else {
        assert(spec_is_space(s[0]));
        lemma_trim_front_skip(s.drop_first(), k - 1);
        assert(s.drop_first().skip(k - 1) =~= s.skip(k));
    }
}

/// Taking `k` characters, when everything past them is whitespace and the
/// last kept character is not, is what back-trimming does.
proof fn lemma_trim_back_take(s: Seq<char>, k: int)
    requires
        0 <= k <= s.len(),
        forall|j: int| k <= j < s.len() ==> spec_is_space(s[j]),
        k > 0 ==> !spec_is_space(s[k - 1]),
    ensures
        spec_trim_back(s) == s.take(k),
    decreases s.len() - k,
{
    if k == s.len() {
        assert(s.take(k) =~= s);
        if s.len() > 0 {
            assert(!spec_is_space(s.last()));
        }
    } else {
        assert(spec_is_space(s.last()));
        lemma_trim_back_take(s.drop_last(), k);
        assert(s.drop_last().take(k) =~= s.take(k));
    }
}

/// Strips leading and trailing whitespace from a vector of characters.
pub fn trim_chars(v: &Vec<char>) -> (r: Vec<char>)
    ensures
        r@ == spec_trim(v@),
{
    let n = v.len();
    let mut start: usize = 0;
    while start < n && is_space(v[start])
        invariant
            start <= n,
            n == v@.len(),
            forall|j: int| 0 <= j < start ==> spec_is_space(v@[j]),
        decreases n - start,
    {
        start = start + 1;
    }
    let mut end: usize = n;
    while end > start && is_space(v[end - 1])
        invariant
            start <= end <= n,
            n == v@.len(),
            forall|j: int| 0 <= j < start ==> spec_is_space(v@[j]),
            start < n ==> !spec_is_space(v@[start as int]),
            forall|j: int| end <= j < n ==> spec_is_space(v@[j]),
        decreases end,
    {
        end = end - 1;
    }
    proof {
        lemma_trim_front_skip(v@, start as int);
        lemma_trim_back_take(v@.skip(start as int), end - start);
    }
    let mut r: Vec<char> = Vec::new();
    let mut i: usize = start;
    while i < end
        invariant
            start <= i <= end <= n,
            n == v@.len(),
            r@ == v@.subrange(start as int, i as int),
        decreases end - i,
    {
        r.push(v[i]);
        proof {
            assert(r@ =~= v@.subrange(start as int, i + 1));
        }
        i = i + 1;
    }
    proof {
        assert(r@ =~= v@.skip(start as int).take(end - start));
    }
    r
}

/// Whether a character sequence equals the view of a string literal.
pub fn chars_eq_str(t: &Vec<char>, lit: &str) -> (r: bool)
    ensures
        r == (t@ == lit@),
{
    let n = lit.unicode_len();
    if t.len() != n {
        return false;
    }
    let mut i: usize = 0;
    while i < n
        invariant
            i <= n,
            n == lit@.len(),
            t@.len() == n,
            forall|j: int| 0 <= j < i ==> t@[j] == lit@[j],
        decreases n - i,
    {
        if t[i] != lit.get_char(i) {
            return false;
        }
        i = i + 1;
    }
    proof {
        assert(t@ =~= lit@);
    }
    true
}

/// Whether `t` starts with the whole of `prefix`.
pub open spec fn spec_starts_with(t: Seq<char>, prefix: Seq<char>) -> bool {
    t.len() >= prefix.len() && t.take(prefix.len() as int) == prefix
}

/// Whether a character sequence starts with the view of a string literal.
pub fn chars_start_with_str(t: &Vec<char>, lit: &str) -> (r: bool)
    ensures
        r == spec_starts_with(t@, lit@),
{
    let n = lit.unicode_len();
    if t.len() < n {
        return false;
    }
    let mut i: usize = 0;
    while i < n
        invariant
            i <= n,
            n == lit@.len(),
            t@.len() >= n,
            forall|j: int| 0 <= j < i ==> t@[j] == lit@[j],
        decreases n - i,
    {
        if t[i] != lit.get_char(i) {
            return false;
        }
        i = i + 1;
    }
    proof {
        assert(t@.take(n as int) =~= lit@);
    }
    true
}

/// Whether `sub` occurs contiguously anywhere in `t`.
pub open spec fn spec_contains_seq(t: Seq<char>, sub: Seq<char>) -> bool {
    exists|k: int|
        0 <= k <= t.len() - sub.len() && #[trigger] t.subrange(k, k + sub.len()) == sub
}

/// Whether a character sequence contains the view of a string literal.
pub fn chars_contain_str(t: &Vec<char>, lit: &str) -> (r: bool)
    ensures
        r == spec_contains_seq(t@, lit@),
{
    let n = lit.unicode_len();
    if n > t.len() {
        return false;
    }
    if n == 0 {
        proof {
            assert(t@.subrange(0, 0 + lit@.len() as int) =~= lit@);
        }
        return true;
    }
    let last = t.len() - n;
    let mut k: usize = 0;
    while k <= last
        invariant
            k <= last + 1,
            last == t@.len() - n,
            1 <= n == lit@.len(),
            n <= t@.len() <= usize::MAX,
            forall|j: int| 0 <= j < k ==> #[trigger] t@.subrange(j, j + lit@.len()) != lit@,
        decreases last + 1 - k,
    {
        let mut i: usize = 0;
        let mut all: bool = true;
        while i < n
            invariant
                i <= n,
                n == lit@.len(),
                k + n <= t@.len() <= usize::MAX,
                all ==> forall|j: int| 0 <= j < i ==> t@[k + j] == lit@[j],
                !all ==> t@.subrange(k as int, k + lit@.len()) != lit@,
            decreases n - i,
        {
            if all && t[k + i] != lit.get_char(i) {
                all = false;
                proof {
                    assert(t@.subrange(k as int, k + lit@.len())[i as int] != lit@[i as int]);
                }
            }
            i = i + 1;
        }
        if all {
            proof {
                assert(t@.subrange(k as int, k + lit@.len()) =~= lit@);
            }
            return true;
        }
        k = k + 1;
    }
    false
}

} // verus!
