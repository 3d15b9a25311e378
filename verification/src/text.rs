//! Character-level text helpers: Unicode white-space, trimming, and string
//! equality, all verified down to the character sequences.

use vstd::prelude::*;

verus! {

/// The Unicode white-space characters: what trimming removes from the ends
/// of the fetcher's output.
pub open spec fn is_unicode_whitespace(c: char) -> bool {
    ||| (0x09 <= c as u32 && c as u32 <= 0x0D)
    ||| c as u32 == 0x20
    ||| c as u32 == 0x85
    ||| c as u32 == 0xA0
    ||| c as u32 == 0x1680
    ||| (0x2000 <= c as u32 && c as u32 <= 0x200A)
    ||| c as u32 == 0x2028
    ||| c as u32 == 0x2029
    ||| c as u32 == 0x202F
    ||| c as u32 == 0x205F
    ||| c as u32 == 0x3000
}

/// Decides [`is_unicode_whitespace`].
pub fn is_whitespace_char(c: char) -> (r: bool)
    ensures
        r == is_unicode_whitespace(c),
{
    let u = c as u32;
    (0x09 <= u && u <= 0x0D) || u == 0x20 || u == 0x85 || u == 0xA0 || u == 0x1680 || (0x2000 <= u
        && u <= 0x200A) || u == 0x2028 || u == 0x2029 || u == 0x202F || u == 0x205F || u == 0x3000
}

/// The first index at or after `i` holding a non-white-space character, or
/// the length if there is none.
pub open spec fn trim_start_idx(s: Seq<char>, i: int) -> int
    decreases s.len() - i when 0 <= i <= s.len()
{
    if i < s.len() && is_unicode_whitespace(s[i]) {
        trim_start_idx(s, i + 1)
    } else {
        i
    }
}

/// The end (exclusive) of the text once trailing white space before `j` is
/// dropped.
pub open spec fn trim_end_idx(s: Seq<char>, j: int) -> int
    decreases j when 0 <= j <= s.len()
{
    if j > 0 && is_unicode_whitespace(s[j - 1]) {
        trim_end_idx(s, j - 1)
    } else {
        j
    }
}

/// The text with leading and trailing white space removed.
pub open spec fn trim_seq(s: Seq<char>) -> Seq<char> {
    let a = trim_start_idx(s, 0);
    if a == s.len() {
        Seq::empty()
    } else {
        s.subrange(a, trim_end_idx(s, s.len() as int))
    }
}

proof fn lemma_trim_start_bounds(s: Seq<char>, i: int)
    requires
        0 <= i <= s.len(),
    ensures
        i <= trim_start_idx(s, i) <= s.len(),
        trim_start_idx(s, i) < s.len() ==> !is_unicode_whitespace(s[trim_start_idx(s, i)]),
    decreases s.len() - i,
{
    if i < s.len() && is_unicode_whitespace(s[i]) {
        lemma_trim_start_bounds(s, i + 1);
    }
}

proof fn lemma_trim_end_above(s: Seq<char>, a: int, j: int)
    requires
        0 <= a < j <= s.len(),
        !is_unicode_whitespace(s[a]),
    ensures
        a < trim_end_idx(s, j) <= j,
    decreases j,
{
    if j > 0 && is_unicode_whitespace(s[j - 1]) {
        lemma_trim_end_above(s, a, j - 1);
    }
}

/// The text with leading and trailing Unicode white space removed.
pub fn trim_str(s: &str) -> (r: &str)
    ensures
        r@ == trim_seq(s@),
{
    let n = s.unicode_len();
    let mut a: usize = 0;
    while a < n && is_whitespace_char(s.get_char(a))
        invariant
            0 <= a <= n == s@.len(),
            trim_start_idx(s@, a as int) == trim_start_idx(s@, 0),
        decreases n - a,
    {
        a = a + 1;
    }
    if a == n {
        proof {
            reveal_strlit("");
            assert(""@ =~= trim_seq(s@));
        }
        return "";
    }
    let mut b: usize = n;
    proof {
        lemma_trim_start_bounds(s@, 0);
    }
    while b > 0 && is_whitespace_char(s.get_char(b - 1))
        invariant
            a < b <= n == s@.len(),
            !is_unicode_whitespace(s@[a as int]),
            trim_end_idx(s@, b as int) == trim_end_idx(s@, n as int),
        decreases b,
    {
        proof {
            lemma_trim_end_above(s@, a as int, b as int);
        }
        b = b - 1;
    }
    s.substring_char(a, b)
}

/// The characters of the text, in order, as a vector.
pub fn chars_of_str(s: &str) -> (r: Vec<char>)
    ensures
        r@ == s@,
{
    let n = s.unicode_len();
    let mut r: Vec<char> = Vec::new();
    let mut i: usize = 0;
    while i < n
        invariant
            0 <= i <= n == s@.len(),
            r@ =~= s@.subrange(0, i as int),
        decreases n - i,
    {
        r.push(s.get_char(i));
        i = i + 1;
    }
    proof {
        assert(r@ =~= s@);
    }
    r
}

/// Character-for-character equality of two texts.
pub fn str_eq(a: &str, b: &str) -> (r: bool)
    ensures
        r == (a@ == b@),
{
    let n = a.unicode_len();
    if n != b.unicode_len() {
        return false;
    }
    let mut i: usize = 0;
    while i < n
        invariant
            0 <= i <= n == a@.len() == b@.len(),
            forall|j: int| 0 <= j < i ==> a@[j] == b@[j],
        decreases n - i,
    {
        if a.get_char(i) != b.get_char(i) {
            return false;
        }
        i = i + 1;
    }
    proof {
        assert(a@ =~= b@);
    }
    true
}

} // verus!
