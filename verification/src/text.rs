//! Character sequences: the vocabulary in which the rest of the crate states
//! its contracts (`Seq<char>` and a few functions on it), and the executable
//! helpers that move between `str`, `String` and slices of `char`.

use vstd::prelude::*;
use vstd::slice::slice_subrange;
use vstd::std_specs::iter::IteratorSpec;
use vstd::utf8::*;

verus! {

broadcast use vstd::string::group_string_axioms;

/// `String::push` appends one character to the end of the string.
pub assume_specification[ String::push ](s: &mut String, ch: char)
    ensures
        final(s)@ == old(s)@.push(ch),
;

/// The characters of `s`, in order.
pub fn chars_of(s: &str) -> (chars: Vec<char>)
    ensures
        chars@ == s@,
{
    let mut chars: Vec<char> = Vec::new();
    for c in it: s.chars()
        invariant
            it.seq() == s@,
            chars@ == it.history(),
    {
        chars.push(c);
    }
    assert(chars@ =~= s@);
    chars
}

/// The string made of the characters of `chars`.
pub fn string_of(chars: &[char]) -> (s: String)
    ensures
        s@ == chars@,
{
    let mut s = String::new();
    let mut i: usize = 0;
    while i < chars.len()
        invariant
            i <= chars@.len(),
            s@ == chars@.take(i as int),
        decreases chars@.len() - i,
    {
        s.push(chars[i]);
        i += 1;
        assert(chars@.take(i as int) =~= chars@.take(i - 1).push(chars@[i - 1]));
    }
    assert(chars@.take(i as int) =~= chars@);
    s
}

/// Whether two string slices hold the same characters.
pub fn str_eq(a: &str, b: &str) -> (eq: bool)
    ensures
        eq == (a@ == b@),
{
    let x = a.as_bytes();
    let y = b.as_bytes();
    proof {
        // equal texts have equal encodings, and decoding gives the text back
        encode_utf8_decode_utf8(a@);
        encode_utf8_decode_utf8(b@);
    }
    if x.len() != y.len() {
        return false;
    }
    let mut i: usize = 0;
    while i < x.len()
        invariant
            i <= x@.len(),
            x@.len() == y@.len(),
            x@ == encode_utf8(a@),
            y@ == encode_utf8(b@),
            forall|j: int| 0 <= j < i ==> x@[j] == y@[j],
        decreases x@.len() - i,
    {
        if x[i] != y[i] {
            return false;
        }
        i += 1;
    }
    assert(x@ =~= y@);
    true
}

/// The encoding of two texts, one after the other, is the encoding of the
/// first followed by that of the second.
pub proof fn lemma_encode_utf8_concat(a: Seq<char>, b: Seq<char>)
    ensures
        encode_utf8(a + b) == encode_utf8(a) + encode_utf8(b),
    decreases a.len(),
{
    if a.len() == 0 {
        assert(a + b =~= b);
        assert(encode_utf8(a) + encode_utf8(b) =~= encode_utf8(b));
    } else {
        lemma_encode_utf8_concat(a.drop_first(), b);
        assert((a + b).drop_first() =~= a.drop_first() + b);
        assert(encode_utf8(a + b) =~= encode_utf8(a) + encode_utf8(b));
    }
}

/// The characters that count as white space: those with the Unicode
/// property `White_Space`.
pub open spec fn is_whitespace(c: char) -> bool {
    let u = c as u32;
    ||| 0x09 <= u <= 0x0D
    ||| u == 0x20
    ||| u == 0x85
    ||| u == 0xA0
    ||| u == 0x1680
    ||| 0x2000 <= u <= 0x200A
    ||| u == 0x2028
    ||| u == 0x2029
    ||| u == 0x202F
    ||| u == 0x205F
    ||| u == 0x3000
}

/// Whether `c` is white space.
pub fn char_is_whitespace(c: char) -> (b: bool)
    ensures
        b == is_whitespace(c),
{
    let u: u32 = c as u32;
    (0x09 <= u && u <= 0x0D) || u == 0x20 || u == 0x85 || u == 0xA0 || u == 0x1680 || (0x2000 <= u
        && u <= 0x200A) || u == 0x2028 || u == 0x2029 || u == 0x202F || u == 0x205F || u == 0x3000
}

/// A set of characters that a scan can run over.
#[derive(Clone, Copy, Debug)]
pub enum CharClass {
    /// White space.
    Space,
    /// Everything that is not white space.
    Visible,
    /// Every character but the given one.
    Except(char),
}

impl CharClass {
    /// Whether `c` belongs to the class.
    pub open spec fn has(self, c: char) -> bool {
        match self {
            CharClass::Space => is_whitespace(c),
            CharClass::Visible => !is_whitespace(c),
            CharClass::Except(x) => c != x,
        }
    }

    /// Whether `c` belongs to the class.
    pub fn contains(&self, c: char) -> (b: bool)
        ensures
            b == self.has(c),
    {
        match self {
            CharClass::Space => char_is_whitespace(c),
            CharClass::Visible => !char_is_whitespace(c),
            CharClass::Except(x) => c != *x,
        }
    }
}

/// The length of the longest prefix of `s` whose characters are all in `k`.
pub open spec fn run(s: Seq<char>, k: CharClass) -> nat
    decreases s.len(),
{
    if s.len() > 0 && k.has(s[0]) {
        1 + run(s.drop_first(), k)
    } else {
        0
    }
}

/// `n` characters of class `k` open `s`, and the next one, if any, is not in `k`.
pub open spec fn is_run(s: Seq<char>, k: CharClass, n: int) -> bool {
    &&& 0 <= n <= s.len()
    &&& forall|j: int| 0 <= j < n ==> k.has(#[trigger] s[j])
    &&& n < s.len() ==> !k.has(s[n])
}

/// `run` is the one number that `is_run` describes.
pub proof fn lemma_run(s: Seq<char>, k: CharClass)
    ensures
        is_run(s, k, run(s, k) as int),
        forall|n: int| is_run(s, k, n) ==> n == run(s, k),
    decreases s.len(),
{
    if s.len() > 0 && k.has(s[0]) {
        let t = s.drop_first();
        lemma_run(t, k);
        let r = run(t, k) as int;
        assert forall|j: int| 0 <= j < r + 1 implies k.has(#[trigger] s[j]) by {
            if j > 0 {
                assert(s[j] == t[j - 1]);
            }
        }
        if r + 1 < s.len() {
            assert(s[r + 1] == t[r]);
        }
        assert forall|n: int| is_run(s, k, n) implies n == run(s, k) by {
            assert(n > 0);
            assert forall|j: int| 0 <= j < n - 1 implies k.has(#[trigger] t[j]) by {
                assert(t[j] == s[j + 1]);
            }
            if n - 1 < t.len() {
                assert(t[n - 1] == s[n]);
            }
            assert(is_run(t, k, n - 1));
        }
    } else {
        assert forall|n: int| is_run(s, k, n) implies n == 0 by {
            if n > 0 {
                assert(k.has(s[0]));
            }
        }
    }
}

/// The number of characters of class `k` that open `s`.
pub fn run_length(s: &[char], k: CharClass) -> (n: usize)
    ensures
        n == run(s@, k),
        n <= s@.len(),
{
    let mut n: usize = 0;
    while n < s.len() && k.contains(s[n])
        invariant
            n <= s@.len(),
            forall|j: int| 0 <= j < n ==> k.has(#[trigger] s@[j]),
        decreases s@.len() - n,
    {
        n += 1;
    }
    proof {
        lemma_run(s@, k);
        assert(is_run(s@, k, n as int));
    }
    n
}

/// The number of characters of class `k` that close `s`.
pub fn run_length_back(s: &[char], k: CharClass) -> (n: usize)
    ensures
        n == run(s@.reverse(), k),
        n <= s@.len(),
{
    let len = s.len();
    let mut n: usize = 0;
    while n < len && k.contains(s[len - 1 - n])
        invariant
            len == s@.len(),
            n <= len,
            forall|j: int| 0 <= j < n ==> k.has(#[trigger] s@.reverse()[j]),
        decreases len - n,
    {
        n += 1;
    }
    proof {
        lemma_run(s@.reverse(), k);
        assert(is_run(s@.reverse(), k, n as int));
    }
    n
}

/// `s` without the white space that opens it.
pub open spec fn trim_start(s: Seq<char>) -> Seq<char> {
    s.skip(run(s, CharClass::Space) as int)
}

/// `s` without the white space that closes it.
pub open spec fn trim_end(s: Seq<char>) -> Seq<char> {
    s.take(s.len() - run(s.reverse(), CharClass::Space))
}

/// `s` without the white space at either end.
pub open spec fn trim(s: Seq<char>) -> Seq<char> {
    trim_end(trim_start(s))
}

/// The part of `s` that is left when the white space at both ends is dropped.
pub fn trimmed(s: &[char]) -> (t: &[char])
    ensures
        t@ == trim(s@),
{
    let start = run_length(s, CharClass::Space);
    let rest = slice_subrange(s, start, s.len());
    let back = run_length_back(rest, CharClass::Space);
    slice_subrange(rest, 0, rest.len() - back)
}

/// The first white-space-delimited word of `s`; empty if `s` has none.
pub open spec fn first_word(s: Seq<char>) -> Seq<char> {
    let t = trim_start(s);
    t.take(run(t, CharClass::Visible) as int)
}

/// What follows the first word of `s`.
pub open spec fn after_first_word(s: Seq<char>) -> Seq<char> {
    let t = trim_start(s);
    t.skip(run(t, CharClass::Visible) as int)
}

/// The word of `s` at position `n`, counted from 0; empty if `s` has fewer words.
pub open spec fn word(s: Seq<char>, n: nat) -> Seq<char>
    decreases n,
{
    if n == 0 {
        first_word(s)
    } else {
        word(after_first_word(s), (n - 1) as nat)
    }
}

/// Splits `s` into its first word and what follows it.
pub fn split_first_word(s: &[char]) -> (parts: (&[char], &[char]))
    ensures
        parts.0@ == first_word(s@),
        parts.1@ == after_first_word(s@),
{
    let start = run_length(s, CharClass::Space);
    let rest = slice_subrange(s, start, s.len());
    let end = run_length(rest, CharClass::Visible);
    (slice_subrange(rest, 0, end), slice_subrange(rest, end, rest.len()))
}

} // verus!
