//! Small verified text utilities: string equality, case-insensitive keyword
//! matching with whitespace trimming, and decimal formatting of integers.

use vstd::prelude::*;

verus! {

use vstd::string::StrSliceExecFns;
use vstd::string::StringExecFns;

/// One character, lowered: an ASCII capital letter becomes its small form,
/// every other character stays as it is.
pub open spec fn lower_char(c: char) -> char {
    if 65 <= c as u32 && c as u32 <= 90 {
        ((c as u32) + 32) as char
    } else {
        c
    }
}

/// A character sequence with every ASCII capital letter lowered.
pub open spec fn lower(s: Seq<char>) -> Seq<char> {
    s.map_values(|c: char| lower_char(c))
}

pub open spec fn is_ascii_space(c: char) -> bool {
    c == ' ' || c == '\t' || c == '\n' || c == '\r'
}

/// The sequence with its leading ASCII whitespace removed.
pub open spec fn trim_front(s: Seq<char>) -> Seq<char>
    decreases s.len(),
{
    if s.len() > 0 && is_ascii_space(s[0]) {
        trim_front(s.drop_first())
    } else {
        s
    }
}

/// The sequence with its trailing ASCII whitespace removed.
pub open spec fn trim_back(s: Seq<char>) -> Seq<char>
    decreases s.len(),
{
    if s.len() > 0 && is_ascii_space(s[s.len() - 1]) {
        trim_back(s.drop_last())
    } else {
        s
    }
}

/// The sequence with whitespace removed from both ends.
pub open spec fn trimmed(s: Seq<char>) -> Seq<char> {
    trim_back(trim_front(s))
}

proof fn lemma_trim_front_step(s: Seq<char>, i: int)
    requires
        0 <= i < s.len(),
        is_ascii_space(s[i]),
    ensures
        trim_front(s.skip(i)) == trim_front(s.skip(i + 1)),
{
    assert(s.skip(i)[0] == s[i]);
    assert(s.skip(i).drop_first() =~= s.skip(i + 1));
}

proof fn lemma_trim_back_step(s: Seq<char>, j: int)
    requires
        0 < j <= s.len(),
        is_ascii_space(s[j - 1]),
    ensures
        trim_back(s.take(j)) == trim_back(s.take(j - 1)),
{
    assert(s.take(j)[j - 1] == s[j - 1]);
    assert(s.take(j).drop_last() =~= s.take(j - 1));
}

/// Exact string equality.
pub fn str_eq(a: &str, b: &str) -> (r: bool)
    ensures
        r == (a@ == b@),
{
    let a_len = a.unicode_len();
    let b_len = b.unicode_len();
    if a_len != b_len {
        return false;
    }
    let mut i: usize = 0;
    while i < a_len
        invariant
            a_len == a@.len(),
            b_len == b@.len(),
            a_len == b_len,
            i <= a_len,
            forall|j: int| 0 <= j < i ==> a@[j] == b@[j],
        decreases a_len - i,
    {
        if a.get_char(i) != b.get_char(i) {
            return false;
        }
        i += 1;
    }
    proof {
        assert(a@ =~= b@);
    }
    true
}

fn is_space(c: char) -> (r: bool)
    ensures
        r == is_ascii_space(c),
{
    c == ' ' || c == '\t' || c == '\n' || c == '\r'
}

fn lower_char_exec(c: char) -> (r: char)
    ensures
        r == lower_char(c),
{
    let code = c as u32;
    if 65 <= code && code <= 90 {
        ((code + 32) as u8) as char
    } else {
        c
    }
}

/// Does `input`, once trimmed and lowered, spell the keyword `kw`?
pub fn matches_keyword(input: &str, kw: &str) -> (r: bool)
    ensures
        r == (lower(trimmed(input@)) == kw@),
{
    let n = input.unicode_len();
    let mut start: usize = 0;
    proof {
        assert(input@.skip(0) =~= input@);
    }
    while start < n && is_space(input.get_char(start))
        invariant
            n == input@.len(),
            start <= n,
            trim_front(input@) == trim_front(input@.skip(start as int)),
        decreases n - start,
    {
        proof {
            lemma_trim_front_step(input@, start as int);
        }
        start += 1;
    }
    proof {
        if start < n {
            assert(trim_front(input@.skip(start as int)) == input@.skip(start as int));
        } else {
            assert(input@.skip(start as int) =~= Seq::<char>::empty());
        }
        assert(trim_front(input@) == input@.skip(start as int));
    }
    let ghost t = input@.skip(start as int);
    let mut end: usize = n;
    proof {
        assert(t.take(n - start as int) =~= t);
    }
    while end > start && is_space(input.get_char(end - 1))
        invariant
            n == input@.len(),
            start <= end <= n,
            t == input@.skip(start as int),
            trim_back(t) == trim_back(t.take(end - start as int)),
        decreases end,
    {
        proof {
            assert(t.take(end - start as int)[end - 1 - start as int] == input@[end - 1]);
            lemma_trim_back_step(t, end - start as int);
        }
        end -= 1;
    }
    proof {
        if end > start {
            assert(t.take(end - start as int)[end - 1 - start as int] == input@[end - 1]);
            assert(trim_back(t.take(end - start as int)) == t.take(end - start as int));
        } else {
            assert(t.take(end - start as int) =~= Seq::<char>::empty());
        }
        assert(trimmed(input@) == t.take(end - start as int));
    }
    let m = kw.unicode_len();
    if m != end - start {
        proof {
            assert(lower(trimmed(input@)).len() == trimmed(input@).len());
        }
        return false;
    }
    let mut i: usize = 0;
    while i < m
        invariant
            n == input@.len(),
            m == kw@.len(),
            start <= end <= n,
            m == end - start,
            i <= m,
            t == input@.skip(start as int),
            trimmed(input@) == t.take(end - start as int),
            forall|j: int| 0 <= j < i ==> lower_char(#[trigger] trimmed(input@)[j]) == kw@[j],
        decreases m - i,
    {
        let c = input.get_char(start + i);
        proof {
            assert(trimmed(input@)[i as int] == input@[start + i]);
        }
        if lower_char_exec(c) != kw.get_char(i) {
            proof {
                assert(lower(trimmed(input@))[i as int] == lower_char(trimmed(input@)[i as int]));
            }
            return false;
        }
        i += 1;
    }
    proof {
        assert(lower(trimmed(input@)) =~= kw@);
    }
    true
}

/// Does `s` start with `prefix`?
pub fn str_has_prefix(s: &str, prefix: &str) -> (r: bool)
    ensures
        r == prefix@.is_prefix_of(s@),
{
    let n = prefix.unicode_len();
    if s.unicode_len() < n {
        return false;
    }
    let mut i: usize = 0;
    while i < n
        invariant
            n == prefix@.len(),
            n <= s@.len(),
            i <= n,
            forall|j: int| 0 <= j < i ==> s@[j] == prefix@[j],
        decreases n - i,
    {
        if s.get_char(i) != prefix.get_char(i) {
            proof {
                assert(s@.subrange(0, n as int)[i as int] == s@[i as int]);
            }
            return false;
        }
        i += 1;
    }
    proof {
        assert(prefix@ =~= s@.subrange(0, n as int));
    }
    true
}

/// The decimal digit `d` as a character.
pub open spec fn dec_digit_char(d: nat) -> char {
    ((48 + d) as char)
}

/// The decimal spelling of a natural number, most significant digit first.
pub open spec fn dec_str(n: nat) -> Seq<char>
    decreases n,
{
    if n < 10 {
        seq![dec_digit_char(n)]
    } else {
        dec_str(n / 10) + seq![dec_digit_char(n % 10)]
    }
}

fn digit_str(d: u32) -> (r: &'static str)
    requires
        d < 10,
    ensures
        r@ =~= seq![dec_digit_char(d as nat)],
{
    if d == 0 {
        proof { reveal_strlit("0"); }
        "0"
    } else if d == 1 {
        proof { reveal_strlit("1"); }
        "1"
    } else if d == 2 {
        proof { reveal_strlit("2"); }
        "2"
    } else if d == 3 {
        proof { reveal_strlit("3"); }
        "3"
    } else if d == 4 {
        proof { reveal_strlit("4"); }
        "4"
    } else if d == 5 {
        proof { reveal_strlit("5"); }
        "5"
    } else if d == 6 {
        proof { reveal_strlit("6"); }
        "6"
    } else if d == 7 {
        proof { reveal_strlit("7"); }
        "7"
    } else if d == 8 {
        proof { reveal_strlit("8"); }
        "8"
    } else {
        proof { reveal_strlit("9"); }
        "9"
    }
}

/// A `u32` written in decimal.
pub fn u32_to_string(n: u32) -> (r: String)
    ensures
        r@ == dec_str(n as nat),
    decreases n,
{
    if n < 10 {
        String::from_str(digit_str(n))
    } else {
        let prefix = u32_to_string(n / 10);
        prefix.concat(digit_str(n % 10))
    }
}

/// A boolean's spelling: "true" or "false".
pub open spec fn bool_str(b: bool) -> Seq<char> {
    if b {
        "true"@
    } else {
        "false"@
    }
}

pub fn bool_to_string(b: bool) -> (r: String)
    ensures
        r@ == bool_str(b),
{
    if b {
        String::from_str("true")
    } else {
        String::from_str("false")
    }
}

} // verus!
