//! A verified syntactic validator for JSON texts.
//!
//! The fetcher promises its callers a syntactically valid JSON array for
//! every outcome, so this module defines the JSON grammar over character
//! sequences as specification functions (a recursive-descent parser that
//! returns the end index of the element it accepted) and an executable
//! checker proved equivalent to it.

use vstd::prelude::*;

verus! {

/// JSON inter-token white space: space, tab, line feed, carriage return.
pub open spec fn is_json_ws(c: char) -> bool {
    c == ' ' || c == '\t' || c == '\n' || c == '\r'
}

/// A decimal digit.
pub open spec fn is_digit(c: char) -> bool {
    0x30 <= c as u32 && c as u32 <= 0x39
}

/// A hexadecimal digit, either case.
pub open spec fn is_hex_digit(c: char) -> bool {
    is_digit(c) || (0x41 <= c as u32 && c as u32 <= 0x46) || (0x61 <= c as u32 && c as u32
        <= 0x66)
}

/// The character after a backslash in a one-character escape.
pub open spec fn is_escape_char(c: char) -> bool {
    c == '"' || c == '\\' || c == '/' || c == 'b' || c == 'f' || c == 'n' || c == 'r' || c == 't'
}

/// The first index at or after `i` that does not hold a digit.
pub open spec fn skip_digits(s: Seq<char>, i: int) -> int
    decreases s.len() - i when 0 <= i <= s.len()
{
    if i < s.len() && is_digit(s[i]) {
        skip_digits(s, i + 1)
    } else {
        i
    }
}

/// End of the integer part of a number starting at `i`: a single zero, or a
/// nonzero digit followed by digits.
pub open spec fn parse_int_part(s: Seq<char>, i: int) -> Option<int> {
    if 0 <= i && i < s.len() && s[i] == '0' {
        Some(i + 1)
    } else if 0 <= i && i < s.len() && is_digit(s[i]) {
        Some(skip_digits(s, i))
    } else {
        None
    }
}

/// End of the optional fraction part starting at `i`: nothing, or a dot
/// followed by at least one digit.
pub open spec fn parse_frac_part(s: Seq<char>, i: int) -> Option<int> {
    if 0 <= i && i < s.len() && s[i] == '.' {
        if i + 1 < s.len() && is_digit(s[i + 1]) {
            Some(skip_digits(s, i + 1))
        } else {
            None
        }
    } else {
        Some(i)
    }
}

/// End of the optional exponent part starting at `i`: nothing, or `e`/`E`,
/// an optional sign, and at least one digit.
pub open spec fn parse_exp_part(s: Seq<char>, i: int) -> Option<int> {
    if 0 <= i && i < s.len() && (s[i] == 'e' || s[i] == 'E') {
        let j = if i + 1 < s.len() && (s[i + 1] == '+' || s[i + 1] == '-') {
            i + 2
        } else {
            i + 1
        };
        if j < s.len() && is_digit(s[j]) {
            Some(skip_digits(s, j))
        } else {
            None
        }
    } else {
        Some(i)
    }
}

/// End of a number starting at `i`: optional minus sign, integer part,
/// optional fraction, optional exponent.
pub open spec fn parse_number(s: Seq<char>, i: int) -> Option<int> {
    let m = if 0 <= i && i < s.len() && s[i] == '-' {
        i + 1
    } else {
        i
    };
    match parse_int_part(s, m) {
        Some(k) => match parse_frac_part(s, k) {
            Some(k2) => parse_exp_part(s, k2),
            None => None,
        },
        None => None,
    }
}

/// End of a string body starting at `i`, just after the opening quote:
/// unescaped characters at or above `U+0020` other than quote and backslash,
/// one-character escapes, and `\u` escapes with four hex digits, up to and
/// including the closing quote.
pub open spec fn parse_string_rest(s: Seq<char>, i: int) -> Option<int>
    decreases s.len() - i when 0 <= i <= s.len()
{
    if i >= s.len() {
        None
    } else if s[i] == '"' {
        Some(i + 1)
    } else if s[i] == '\\' {
        if i + 1 < s.len() && is_escape_char(s[i + 1]) {
            parse_string_rest(s, i + 2)
        } else if i + 5 < s.len() && s[i + 1] == 'u' && is_hex_digit(s[i + 2]) && is_hex_digit(
            s[i + 3],
        ) && is_hex_digit(s[i + 4]) && is_hex_digit(s[i + 5]) {
            parse_string_rest(s, i + 6)
        } else {
            None
        }
    } else if s[i] as u32 >= 0x20 {
        parse_string_rest(s, i + 1)
    } else {
        None
    }
}

/// End of a JSON value starting at `i`: an array, an object, a string, one
/// of the three literal names, or a number.
pub open spec fn parse_value(s: Seq<char>, i: int) -> Option<int>
    decreases s.len() - i, 0int when 0 <= i <= s.len()
{
    if i >= s.len() {
        None
    } else if s[i] == '[' {
        parse_array_elems(s, i + 1, true)
    } else if s[i] == '{' {
        parse_object_member(s, i + 1, true)
    } else if s[i] == '"' {
        parse_string_rest(s, i + 1)
    } else if s[i] == 't' {
        if i + 3 < s.len() && s[i + 1] == 'r' && s[i + 2] == 'u' && s[i + 3] == 'e' {
            Some(i + 4)
        } else {
            None
        }
    } else if s[i] == 'f' {
        if i + 4 < s.len() && s[i + 1] == 'a' && s[i + 2] == 'l' && s[i + 3] == 's' && s[i + 4]
            == 'e' {
            Some(i + 5)
        } else {
            None
        }
    } else if s[i] == 'n' {
        if i + 3 < s.len() && s[i + 1] == 'u' && s[i + 2] == 'l' && s[i + 3] == 'l' {
            Some(i + 4)
        } else {
            None
        }
    } else if s[i] == '-' || is_digit(s[i]) {
        parse_number(s, i)
    } else {
        None
    }
}

/// Inside an array, before an element: white space, then either the closing
/// bracket (only where no comma came before it) or a value and the rest of
/// the array.
pub open spec fn parse_array_elems(s: Seq<char>, i: int, allow_close: bool) -> Option<int>
    decreases s.len() - i, 1int when 0 <= i <= s.len()
{
    if i >= s.len() {
        None
    } else if is_json_ws(s[i]) {
        parse_array_elems(s, i + 1, allow_close)
    } else if s[i] == ']' {
        if allow_close {
            Some(i + 1)
        } else {
            None
        }
    } else {
        match parse_value(s, i) {
            Some(k) => if i < k && k <= s.len() {
                parse_array_tail(s, k)
            } else {
                None
            },
            None => None,
        }
    }
}

/// Inside an array, after an element: white space, then a closing bracket or
/// a comma and the next element.
pub open spec fn parse_array_tail(s: Seq<char>, i: int) -> Option<int>
    decreases s.len() - i, 1int when 0 <= i <= s.len()
{
    if i >= s.len() {
        None
    } else if is_json_ws(s[i]) {
        parse_array_tail(s, i + 1)
    } else if s[i] == ']' {
        Some(i + 1)
    } else if s[i] == ',' {
        parse_array_elems(s, i + 1, false)
    } else {
        None
    }
}

/// Inside an object, before a member: white space, then either the closing
/// brace (only where no comma came before it) or a member name.
pub open spec fn parse_object_member(s: Seq<char>, i: int, allow_close: bool) -> Option<int>
    decreases s.len() - i, 1int when 0 <= i <= s.len()
{
    if i >= s.len() {
        None
    } else if is_json_ws(s[i]) {
        parse_object_member(s, i + 1, allow_close)
    } else if s[i] == '}' {
        if allow_close {
            Some(i + 1)
        } else {
            None
        }
    } else if s[i] == '"' {
        match parse_string_rest(s, i + 1) {
            Some(k) => if i < k && k <= s.len() {
                parse_object_colon(s, k)
            } else {
                None
            },
            None => None,
        }
    } else {
        None
    }
}

/// Inside an object, after a member name: white space, then the colon and
/// the member's value.
pub open spec fn parse_object_colon(s: Seq<char>, i: int) -> Option<int>
    decreases s.len() - i, 1int when 0 <= i <= s.len()
{
    if i >= s.len() {
        None
    } else if is_json_ws(s[i]) {
        parse_object_colon(s, i + 1)
    } else if s[i] == ':' {
        parse_object_value(s, i + 1)
    } else {
        None
    }
}

/// Inside an object, after the colon: white space, then the member's value
/// and the rest of the object.
pub open spec fn parse_object_value(s: Seq<char>, i: int) -> Option<int>
    decreases s.len() - i, 1int when 0 <= i <= s.len()
{
    if i >= s.len() {
        None
    } else if is_json_ws(s[i]) {
        parse_object_value(s, i + 1)
    } else {
        match parse_value(s, i) {
            Some(k) => if i < k && k <= s.len() {
                parse_object_tail(s, k)
            } else {
                None
            },
            None => None,
        }
    }
}

/// Inside an object, after a member: white space, then a closing brace or a
/// comma and the next member.
pub open spec fn parse_object_tail(s: Seq<char>, i: int) -> Option<int>
    decreases s.len() - i, 1int when 0 <= i <= s.len()
{
    if i >= s.len() {
        None
    } else if is_json_ws(s[i]) {
        parse_object_tail(s, i + 1)
    } else if s[i] == '}' {
        Some(i + 1)
    } else if s[i] == ',' {
        parse_object_member(s, i + 1, false)
    } else {
        None
    }
}

/// A syntactically valid JSON array text: it starts with an opening bracket
/// and parses as one value that spans the whole text.
pub open spec fn is_json_array(s: Seq<char>) -> bool {
    s.len() > 0 && s[0] == '[' && parse_value(s, 0) == Some(s.len() as int)
}

proof fn lemma_string_rest_advances(s: Seq<char>, i: int)
    requires
        0 <= i <= s.len(),
    ensures
        parse_string_rest(s, i) matches Some(k) ==> i < k <= s.len(),
    decreases s.len() - i,
{
    if i < s.len() && s[i] != '"' {
        if s[i] == '\\' {
            if i + 1 < s.len() && is_escape_char(s[i + 1]) {
                lemma_string_rest_advances(s, i + 2);
            } else if i + 5 < s.len() && s[i + 1] == 'u' && is_hex_digit(s[i + 2]) && is_hex_digit(
                s[i + 3],
            ) && is_hex_digit(s[i + 4]) && is_hex_digit(s[i + 5]) {
                lemma_string_rest_advances(s, i + 6);
            }
        } else if s[i] as u32 >= 0x20 {
            lemma_string_rest_advances(s, i + 1);
        }
    }
}

proof fn lemma_number_advances(s: Seq<char>, i: int)
    requires
        0 <= i <= s.len(),
    ensures
        parse_number(s, i) matches Some(k) ==> i < k <= s.len(),
{
    let m = if 0 <= i && i < s.len() && s[i] == '-' {
        i + 1
    } else {
        i
    };
    if m < s.len() && is_digit(s[m]) {
        lemma_skip_digits_bounds(s, m + 1);
    }
    match parse_int_part(s, m) {
        Some(k) => {
            assert(m < k <= s.len());
            if 0 <= k && k < s.len() && s[k] == '.' && k + 1 < s.len() && is_digit(s[k + 1]) {
                lemma_skip_digits_bounds(s, k + 1);
            }
            match parse_frac_part(s, k) {
                Some(k2) => {
                    assert(k <= k2 <= s.len());
                    if 0 <= k2 && k2 < s.len() && (s[k2] == 'e' || s[k2] == 'E') {
                        let j = if k2 + 1 < s.len() && (s[k2 + 1] == '+' || s[k2 + 1] == '-') {
                            k2 + 2
                        } else {
                            k2 + 1
                        };
                        if j < s.len() && is_digit(s[j]) {
                            lemma_skip_digits_bounds(s, j);
                        }
                    }
                },
                None => {},
            }
        },
        None => {},
    }
}

/// Every accepted value spans at least one character and ends within the
/// text, so the bounds tests inside the grammar's definition always hold of
/// what the inner parsers return.
pub proof fn lemma_value_advances(s: Seq<char>, i: int)
    requires
        0 <= i <= s.len(),
    ensures
        parse_value(s, i) matches Some(k) ==> i < k <= s.len(),
    decreases s.len() - i, 0int,
{
    if i < s.len() {
        if s[i] == '[' {
            lemma_array_elems_advances(s, i + 1, true);
        } else if s[i] == '{' {
            lemma_object_member_advances(s, i + 1, true);
        } else if s[i] == '"' {
            lemma_string_rest_advances(s, i + 1);
        } else if s[i] == '-' || is_digit(s[i]) {
            lemma_number_advances(s, i);
        }
    }
}

proof fn lemma_array_elems_advances(s: Seq<char>, i: int, allow_close: bool)
    requires
        0 <= i <= s.len(),
    ensures
        parse_array_elems(s, i, allow_close) matches Some(k) ==> i < k <= s.len(),
    decreases s.len() - i, 1int,
{
    if i < s.len() {
        if is_json_ws(s[i]) {
            lemma_array_elems_advances(s, i + 1, allow_close);
        } else if s[i] != ']' {
            lemma_value_advances(s, i);
            match parse_value(s, i) {
                Some(k) => if i < k && k <= s.len() {
                    lemma_array_tail_advances(s, k);
                },
                None => {},
            }
        }
    }
}

proof fn lemma_array_tail_advances(s: Seq<char>, i: int)
    requires
        0 <= i <= s.len(),
    ensures
        parse_array_tail(s, i) matches Some(k) ==> i < k <= s.len(),
    decreases s.len() - i, 1int,
{
    if i < s.len() {
        if is_json_ws(s[i]) {
            lemma_array_tail_advances(s, i + 1);
        } else if s[i] == ',' {
            lemma_array_elems_advances(s, i + 1, false);
        }
    }
}

proof fn lemma_object_member_advances(s: Seq<char>, i: int, allow_close: bool)
    requires
        0 <= i <= s.len(),
    ensures
        parse_object_member(s, i, allow_close) matches Some(k) ==> i < k <= s.len(),
    decreases s.len() - i, 1int,
{
    if i < s.len() {
        if is_json_ws(s[i]) {
            lemma_object_member_advances(s, i + 1, allow_close);
        } else if s[i] != '}' && s[i] == '"' {
            lemma_string_rest_advances(s, i + 1);
            match parse_string_rest(s, i + 1) {
                Some(k) => if i < k && k <= s.len() {
                    lemma_object_colon_advances(s, k);
                },
                None => {},
            }
        }
    }
}

proof fn lemma_object_colon_advances(s: Seq<char>, i: int)
    requires
        0 <= i <= s.len(),
    ensures
        parse_object_colon(s, i) matches Some(k) ==> i < k <= s.len(),
    decreases s.len() - i, 1int,
{
    if i < s.len() {
        if is_json_ws(s[i]) {
            lemma_object_colon_advances(s, i + 1);
        } else if s[i] == ':' {
            lemma_object_value_advances(s, i + 1);
        }
    }
}

proof fn lemma_object_value_advances(s: Seq<char>, i: int)
    requires
        0 <= i <= s.len(),
    ensures
        parse_object_value(s, i) matches Some(k) ==> i < k <= s.len(),
    decreases s.len() - i, 1int,
{
    if i < s.len() {
        if is_json_ws(s[i]) {
            lemma_object_value_advances(s, i + 1);
        } else {
            lemma_value_advances(s, i);
            match parse_value(s, i) {
                Some(k) => if i < k && k <= s.len() {
                    lemma_object_tail_advances(s, k);
                },
                None => {},
            }
        }
    }
}

proof fn lemma_object_tail_advances(s: Seq<char>, i: int)
    requires
        0 <= i <= s.len(),
    ensures
        parse_object_tail(s, i) matches Some(k) ==> i < k <= s.len(),
    decreases s.len() - i, 1int,
{
    if i < s.len() {
        if is_json_ws(s[i]) {
            lemma_object_tail_advances(s, i + 1);
        } else if s[i] == ',' {
            lemma_object_member_advances(s, i + 1, false);
        }
    }
}

/// The two-character text `[]` is a valid JSON array.
pub proof fn lemma_empty_array_is_json_array()
    ensures
        is_json_array(seq!['[', ']']),
{
    let s = seq!['[', ']'];
    assert(s.len() == 2 && s[0] == '[' && s[1] == ']');
    assert(parse_array_elems(s, 1, true) == Some(2int));
    assert(parse_value(s, 0) == Some(2int));
}

/// Decides [`is_json_ws`].
fn exec_is_json_ws(c: char) -> (r: bool)
    ensures
        r == is_json_ws(c),
{
    c == ' ' || c == '\t' || c == '\n' || c == '\r'
}

/// Decides [`is_digit`].
fn exec_is_digit(c: char) -> (r: bool)
    ensures
        r == is_digit(c),
{
    let u = c as u32;
    0x30 <= u && u <= 0x39
}

/// Decides [`is_hex_digit`].
fn exec_is_hex_digit(c: char) -> (r: bool)
    ensures
        r == is_hex_digit(c),
{
    let u = c as u32;
    (0x30 <= u && u <= 0x39) || (0x41 <= u && u <= 0x46) || (0x61 <= u && u <= 0x66)
}

/// Decides [`is_escape_char`].
fn exec_is_escape_char(c: char) -> (r: bool)
    ensures
        r == is_escape_char(c),
{
    c == '"' || c == '\\' || c == '/' || c == 'b' || c == 'f' || c == 'n' || c == 'r' || c == 't'
}

proof fn lemma_skip_digits_bounds(s: Seq<char>, i: int)
    requires
        0 <= i <= s.len(),
    ensures
        i <= skip_digits(s, i) <= s.len(),
    decreases s.len() - i,
{
    if i < s.len() && is_digit(s[i]) {
        lemma_skip_digits_bounds(s, i + 1);
    }
}

fn exec_skip_digits(v: &Vec<char>, i: usize) -> (r: usize)
    requires
        i <= v@.len(),
    ensures
        r as int == skip_digits(v@, i as int),
        i <= r <= v@.len(),
    decreases v@.len() - i,
{
    if i < v.len() && exec_is_digit(v[i]) {
        exec_skip_digits(v, i + 1)
    } else {
        i
    }
}

fn exec_parse_number(v: &Vec<char>, i: usize) -> (r: Option<usize>)
    requires
        i < v@.len(),
        v@[i as int] == '-' || is_digit(v@[i as int]),
    ensures
        (match r {
            Some(k) => parse_number(v@, i as int) == Some(k as int) && i < k <= v@.len(),
            None => parse_number(v@, i as int) is None,
        }),
{
    let n = v.len();
    let m: usize = if v[i] == '-' {
        i + 1
    } else {
        i
    };
    let k: usize;
    if m < n && v[m] == '0' {
        k = m + 1;
    } else if m < n && exec_is_digit(v[m]) {
        proof {
            lemma_skip_digits_bounds(v@, m + 1);
        }
        k = exec_skip_digits(v, m);
    } else {
        return None;
    }
    let k2: usize;
    if k < n && v[k] == '.' {
        if k + 1 < n && exec_is_digit(v[k + 1]) {
            k2 = exec_skip_digits(v, k + 1);
        } else {
            return None;
        }
    } else {
        k2 = k;
    }
    if k2 < n && (v[k2] == 'e' || v[k2] == 'E') {
        let j: usize = if k2 + 1 < n && (v[k2 + 1] == '+' || v[k2 + 1] == '-') {
            k2 + 2
        } else {
            k2 + 1
        };
        if j < n && exec_is_digit(v[j]) {
            Some(exec_skip_digits(v, j))
        } else {
            None
        }
    } else {
        Some(k2)
    }
}

fn exec_parse_string_rest(v: &Vec<char>, i: usize) -> (r: Option<usize>)
    requires
        i <= v@.len(),
    ensures
        (match r {
            Some(k) => parse_string_rest(v@, i as int) == Some(k as int) && i < k <= v@.len(),
            None => parse_string_rest(v@, i as int) is None,
        }),
    decreases v@.len() - i,
{
    if i >= v.len() {
        return None;
    }
    let c = v[i];
    if c == '"' {
        Some(i + 1)
    } else if c == '\\' {
        if v.len() - i > 1 && exec_is_escape_char(v[i + 1]) {
            exec_parse_string_rest(v, i + 2)
        } else if v.len() - i > 5 && v[i + 1] == 'u' && exec_is_hex_digit(v[i + 2])
            && exec_is_hex_digit(v[i + 3]) && exec_is_hex_digit(v[i + 4]) && exec_is_hex_digit(
            v[i + 5],
        ) {
            exec_parse_string_rest(v, i + 6)
        } else {
            None
        }
    } else if c as u32 >= 0x20 {
        exec_parse_string_rest(v, i + 1)
    } else {
        None
    }
}

fn exec_parse_value(v: &Vec<char>, i: usize) -> (r: Option<usize>)
    requires
        i <= v@.len(),
    ensures
        (match r {
            Some(k) => parse_value(v@, i as int) == Some(k as int) && i < k <= v@.len(),
            None => parse_value(v@, i as int) is None,
        }),
    decreases v@.len() - i, 0int,
{
    if i >= v.len() {
        return None;
    }
    let c = v[i];
    if c == '[' {
        exec_parse_array_elems(v, i + 1, true)
    } else if c == '{' {
        exec_parse_object_member(v, i + 1, true)
    } else if c == '"' {
        exec_parse_string_rest(v, i + 1)
    } else if c == 't' {
        if v.len() - i > 3 && v[i + 1] == 'r' && v[i + 2] == 'u' && v[i + 3] == 'e' {
            Some(i + 4)
        } else {
            None
        }
    } else if c == 'f' {
        if v.len() - i > 4 && v[i + 1] == 'a' && v[i + 2] == 'l' && v[i + 3] == 's' && v[i + 4]
            == 'e' {
            Some(i + 5)
        } else {
            None
        }
    } else if c == 'n' {
        if v.len() - i > 3 && v[i + 1] == 'u' && v[i + 2] == 'l' && v[i + 3] == 'l' {
            Some(i + 4)
        } else {
            None
        }
    } else if c == '-' || exec_is_digit(c) {
        exec_parse_number(v, i)
    } else {
        None
    }
}

fn exec_parse_array_elems(v: &Vec<char>, i: usize, allow_close: bool) -> (r: Option<usize>)
    requires
        i <= v@.len(),
    ensures
        (match r {
            Some(k) => parse_array_elems(v@, i as int, allow_close) == Some(k as int) && i < k
                <= v@.len(),
            None => parse_array_elems(v@, i as int, allow_close) is None,
        }),
    decreases v@.len() - i, 1int,
{
    if i >= v.len() {
        return None;
    }
    let c = v[i];
    if exec_is_json_ws(c) {
        exec_parse_array_elems(v, i + 1, allow_close)
    } else if c == ']' {
        if allow_close {
            Some(i + 1)
        } else {
            None
        }
    } else {
        match exec_parse_value(v, i) {
            Some(k) => exec_parse_array_tail(v, k),
            None => None,
        }
    }
}

fn exec_parse_array_tail(v: &Vec<char>, i: usize) -> (r: Option<usize>)
    requires
        i <= v@.len(),
    ensures
        (match r {
            Some(k) => parse_array_tail(v@, i as int) == Some(k as int) && i < k <= v@.len(),
            None => parse_array_tail(v@, i as int) is None,
        }),
    decreases v@.len() - i, 1int,
{
    if i >= v.len() {
        return None;
    }
    let c = v[i];
    if exec_is_json_ws(c) {
        exec_parse_array_tail(v, i + 1)
    } else if c == ']' {
        Some(i + 1)
    } else if c == ',' {
        exec_parse_array_elems(v, i + 1, false)
    } else {
        None
    }
}

fn exec_parse_object_member(v: &Vec<char>, i: usize, allow_close: bool) -> (r: Option<usize>)
    requires
        i <= v@.len(),
    ensures
        (match r {
            Some(k) => parse_object_member(v@, i as int, allow_close) == Some(k as int) && i < k
                <= v@.len(),
            None => parse_object_member(v@, i as int, allow_close) is None,
        }),
    decreases v@.len() - i, 1int,
{
    if i >= v.len() {
        return None;
    }
    let c = v[i];
    if exec_is_json_ws(c) {
        exec_parse_object_member(v, i + 1, allow_close)
    } else if c == '}' {
        if allow_close {
            Some(i + 1)
        } else {
            None
        }
    } else if c == '"' {
        match exec_parse_string_rest(v, i + 1) {
            Some(k) => exec_parse_object_colon(v, k),
            None => None,
        }
    } else {
        None
    }
}

fn exec_parse_object_colon(v: &Vec<char>, i: usize) -> (r: Option<usize>)
    requires
        i <= v@.len(),
    ensures
        (match r {
            Some(k) => parse_object_colon(v@, i as int) == Some(k as int) && i < k <= v@.len(),
            None => parse_object_colon(v@, i as int) is None,
        }),
    decreases v@.len() - i, 1int,
{
    if i >= v.len() {
        return None;
    }
    let c = v[i];
    if exec_is_json_ws(c) {
        exec_parse_object_colon(v, i + 1)
    } else if c == ':' {
        exec_parse_object_value(v, i + 1)
    } else {
        None
    }
}

fn exec_parse_object_value(v: &Vec<char>, i: usize) -> (r: Option<usize>)
    requires
        i <= v@.len(),
    ensures
        (match r {
            Some(k) => parse_object_value(v@, i as int) == Some(k as int) && i < k <= v@.len(),
            None => parse_object_value(v@, i as int) is None,
        }),
    decreases v@.len() - i, 1int,
{
    if i >= v.len() {
        return None;
    }
    let c = v[i];
    if exec_is_json_ws(c) {
        exec_parse_object_value(v, i + 1)
    } else {
        match exec_parse_value(v, i) {
            Some(k) => exec_parse_object_tail(v, k),
            None => None,
        }
    }
}

fn exec_parse_object_tail(v: &Vec<char>, i: usize) -> (r: Option<usize>)
    requires
        i <= v@.len(),
    ensures
        (match r {
            Some(k) => parse_object_tail(v@, i as int) == Some(k as int) && i < k <= v@.len(),
            None => parse_object_tail(v@, i as int) is None,
        }),
    decreases v@.len() - i, 1int,
{
    if i >= v.len() {
        return None;
    }
    let c = v[i];
    if exec_is_json_ws(c) {
        exec_parse_object_tail(v, i + 1)
    } else if c == '}' {
        Some(i + 1)
    } else if c == ',' {
        exec_parse_object_member(v, i + 1, false)
    } else {
        None
    }
}

/// Whether the text is a syntactically valid JSON array.
pub fn is_valid_json_array(s: &str) -> (r: bool)
    ensures
        r == is_json_array(s@),
{
    let v = crate::text::chars_of_str(s);
    if v.len() == 0 {
        return false;
    }
    if v[0] != '[' {
        return false;
    }
    match exec_parse_value(&v, 0) {
        Some(k) => k == v.len(),
        None => false,
    }
}

} // verus!
