//! Verified text primitives for the filename codec: decimal numerals,
//! string equality, and splitting on a separator character.

use vstd::prelude::*;

verus! {

use vstd::string::StrSliceExecFns;
use vstd::string::StringExecFns;

// ---------------------------------------------------------------------------
// Decimal digits and numerals
// ---------------------------------------------------------------------------

/// Whether `c` is a decimal ASCII digit `'0'..='9'`.
pub open spec fn is_decimal_digit(c: char) -> bool {
    48 <= c as u32 <= 57
}

/// The numeric value of a decimal digit (0 for non-digits).
pub open spec fn digit_value(c: char) -> nat {
    if is_decimal_digit(c) {
        (c as u32 - 48) as nat
    } else {
        0
    }
}

/// The decimal digit character for a value below ten.
pub open spec fn digit_char(d: int) -> char {
    if d == 0 {
        '0'
    } else if d == 1 {
        '1'
    } else if d == 2 {
        '2'
    } else if d == 3 {
        '3'
    } else if d == 4 {
        '4'
    } else if d == 5 {
        '5'
    } else if d == 6 {
        '6'
    } else if d == 7 {
        '7'
    } else if d == 8 {
        '8'
    } else {
        '9'
    }
}

/// Whether every character of `s` is a decimal digit.
pub open spec fn all_decimal_digits(s: Seq<char>) -> bool {
    forall|i: int| 0 <= i < s.len() ==> is_decimal_digit(#[trigger] s[i])
}

/// The value of a digit string read in base ten.
pub open spec fn decimal_value(s: Seq<char>) -> nat
    decreases s.len(),
{
    if s.len() == 0 {
        0
    } else {
        decimal_value(s.drop_last()) * 10 + digit_value(s.last())
    }
}

/// The canonical decimal representation of `n`: no sign, no leading zeros.
pub open spec fn decimal_chars(n: nat) -> Seq<char>
    decreases n,
{
    if n < 10 {
        seq![digit_char(n as int)]
    } else {
        decimal_chars(n / 10).push(digit_char((n % 10) as int))
    }
}

/// The canonical decimal representation is a non-empty digit string whose
/// value is the number it was built from.
pub proof fn lemma_decimal_chars_props(n: nat)
    ensures
        decimal_chars(n).len() >= 1,
        all_decimal_digits(decimal_chars(n)),
        decimal_value(decimal_chars(n)) == n,
    decreases n,
{
    if n < 10 {
        let s = decimal_chars(n);
        assert(decimal_value(Seq::<char>::empty()) == 0);
        assert(s.drop_last() =~= Seq::<char>::empty());
        assert(s.last() == digit_char(n as int));
        assert(digit_value(digit_char(n as int)) == n);
        assert(decimal_value(s) == decimal_value(s.drop_last()) * 10 + digit_value(s.last()));
    } else {
        lemma_decimal_chars_props(n / 10);
        let p = decimal_chars(n / 10);
        let s = decimal_chars(n);
        assert(s.drop_last() =~= p);
        assert(digit_value(digit_char((n % 10) as int)) == n % 10);
        vstd::arithmetic::div_mod::lemma_fundamental_div_mod(n as int, 10);
        assert(decimal_value(s) == (n / 10) * 10 + n % 10);
    }
}

/// Extending a digit string to the right can only grow its value.
pub proof fn lemma_decimal_value_prefix_le(s: Seq<char>, k: int)
    requires
        0 <= k <= s.len(),
    ensures
        decimal_value(s.subrange(0, k)) <= decimal_value(s),
    decreases s.len() - k,
{
    if k == s.len() {
        assert(s.subrange(0, k) =~= s);
    } else {
        lemma_decimal_value_prefix_le(s.drop_last(), k);
        assert(s.drop_last().subrange(0, k) =~= s.subrange(0, k));
        assert(decimal_value(s.drop_last()) <= decimal_value(s.drop_last()) * 10 + digit_value(
            s.last(),
        )) by (nonlinear_arith);
    }
}

// ---------------------------------------------------------------------------
// Parsing semantics of `u64` numerals
// ---------------------------------------------------------------------------

/// The digit portion of a numeral: an optional leading `'+'` is stripped.
pub open spec fn numeral_body(s: Seq<char>) -> Seq<char> {
    if s.len() > 0 && s[0] == '+' {
        s.drop_first()
    } else {
        s
    }
}

/// Whether `s` is a numeral denoting a `u64`: an optional `'+'` sign
/// followed by one or more decimal digits, with a value that fits in `u64`.
pub open spec fn is_u64_numeral(s: Seq<char>) -> bool {
    let b = numeral_body(s);
    b.len() > 0 && all_decimal_digits(b) && decimal_value(b) <= u64::MAX
}

/// The value denoted by a `u64` numeral.
pub open spec fn u64_numeral_value(s: Seq<char>) -> nat {
    decimal_value(numeral_body(s))
}

/// What parsing `s` as a `u64` yields.
pub open spec fn parsed_u64(s: Seq<char>) -> Option<u64> {
    if is_u64_numeral(s) {
        Some(u64_numeral_value(s) as u64)
    } else {
        None
    }
}

// ---------------------------------------------------------------------------
// Executable decimal formatting
// ---------------------------------------------------------------------------

/// The one-character string for a decimal digit value.
fn digit_str(d: u64) -> (s: &'static str)
    requires
        d < 10,
    ensures
        s@ == seq![digit_char(d as int)],
{
    proof {
        reveal_strlit("0");
        reveal_strlit("1");
        reveal_strlit("2");
        reveal_strlit("3");
        reveal_strlit("4");
        reveal_strlit("5");
        reveal_strlit("6");
        reveal_strlit("7");
        reveal_strlit("8");
        reveal_strlit("9");
    }
    let s = if d == 0 {
        "0"
    } else if d == 1 {
        "1"
    } else if d == 2 {
        "2"
    } else if d == 3 {
        "3"
    } else if d == 4 {
        "4"
    } else if d == 5 {
        "5"
    } else if d == 6 {
        "6"
    } else if d == 7 {
        "7"
    } else if d == 8 {
        "8"
    } else {
        "9"
    };
    proof {
        assert(s@ =~= seq![digit_char(d as int)]);
    }
    s
}

/// Formats `n` in its canonical decimal representation.
pub fn u64_to_decimal(n: u64) -> (s: String)
    ensures
        s@ == decimal_chars(n as nat),
    decreases n,
{
    if n < 10 {
        String::from_str(digit_str(n))
    } else {
        let mut s = u64_to_decimal(n / 10);
        s.append(digit_str(n % 10));
        proof {
            assert(s@ =~= decimal_chars(n as nat));
        }
        s
    }
}

// ---------------------------------------------------------------------------
// Executable decimal parsing
// ---------------------------------------------------------------------------

/// Parses `t` as a `u64` numeral: an optional `'+'` sign followed by one or
/// more decimal digits.  Rejects an empty digit string, any other character,
/// and values that do not fit in `u64`.
pub fn parse_u64_decimal(t: &str) -> (r: Option<u64>)
    ensures
        r == parsed_u64(t@),
{
    let n = t.unicode_len();
    let offset: usize = if n > 0 && t.get_char(0) == '+' {
        1
    } else {
        0
    };
    let ghost body = numeral_body(t@);
    proof {
        assert(body =~= t@.subrange(offset as int, n as int));
    }
    if offset >= n {
        return None;
    }
    let mut v: u64 = 0;
    let mut i: usize = offset;
    while i < n
        invariant
            offset <= i <= n,
            offset < n,
            n == t@.len(),
            body == numeral_body(t@),
            body =~= t@.subrange(offset as int, n as int),
            all_decimal_digits(body.subrange(0, i - offset)),
            v as nat == decimal_value(body.subrange(0, i - offset)),
        decreases n - i,
    {
        let c = t.get_char(i);
        let u = c as u32;
        proof {
            assert(body[i - offset] == t@[i as int]);
        }
        if u < 48 || u > 57 {
            proof {
                assert(!is_decimal_digit(body[i - offset]));
            }
            return None;
        }
        let d = (u - 48) as u64;
        let ghost pre = body.subrange(0, i - offset);
        let ghost cur = body.subrange(0, i + 1 - offset);
        proof {
            assert(is_decimal_digit(body[i - offset]));
            assert(digit_value(body[i - offset]) == d);
            assert(cur.drop_last() =~= pre);
            assert(cur.last() == body[i - offset]);
            assert(decimal_value(cur) == decimal_value(pre) * 10 + d);
            vstd::arithmetic::div_mod::lemma_fundamental_div_mod((u64::MAX - d) as int, 10);
        }
        if v > (u64::MAX - d) / 10 {
            proof {
                assert(10 * (v as int) + d > u64::MAX);
                assert(decimal_value(cur) > u64::MAX);
                lemma_decimal_value_prefix_le(body, i + 1 - offset);
            }
            return None;
        }
        proof {
            assert(10 * (v as int) + d <= u64::MAX);
        }
        v = v * 10 + d;
        i = i + 1;
    }
    proof {
        assert(body.subrange(0, (n - offset) as int) =~= body);
    }
    Some(v)
}

// ---------------------------------------------------------------------------
// String equality
// ---------------------------------------------------------------------------

/// Whether two strings consist of the same characters.
pub fn str_eq(a: &str, b: &str) -> (r: bool)
    ensures
        r == (a@ == b@),
{
    let n = a.unicode_len();
    if n != b.unicode_len() {
        return false;
    }
    let mut i: usize = 0;
    while i < n
        invariant
            0 <= i <= n,
            n == a@.len(),
            n == b@.len(),
            forall|j: int| 0 <= j < i ==> a@[j] == b@[j],
        decreases n - i,
    {
        if a.get_char(i) != b.get_char(i) {
            return false;
        }
        i = i + 1;
    }
    proof {
        assert(a@ =~= b@);
    }
    true
}

// ---------------------------------------------------------------------------
// Splitting on a separator character
// ---------------------------------------------------------------------------

/// `s` split on every occurrence of `sep`; there is always at least one
/// part, and adjacent or outer separators yield empty parts, exactly as
/// `str::split` behaves on a character pattern.
pub open spec fn split_on(s: Seq<char>, sep: char) -> Seq<Seq<char>>
    decreases s.len(),
{
    if s.len() == 0 {
        seq![Seq::<char>::empty()]
    } else {
        let rest = split_on(s.drop_first(), sep);
        if s[0] == sep {
            seq![Seq::<char>::empty()] + rest
        } else {
            rest.update(0, seq![s[0]] + rest[0])
        }
    }
}

/// Splitting never yields an empty list of parts.
pub proof fn lemma_split_on_len(s: Seq<char>, sep: char)
    ensures
        split_on(s, sep).len() >= 1,
    decreases s.len(),
{
    if s.len() > 0 {
        lemma_split_on_len(s.drop_first(), sep);
    }
}

/// A string without the separator is a single part.
pub proof fn lemma_split_on_no_sep(s: Seq<char>, sep: char)
    requires
        forall|i: int| 0 <= i < s.len() ==> s[i] != sep,
    ensures
        split_on(s, sep) == seq![s],
    decreases s.len(),
{
    if s.len() == 0 {
        assert(s =~= Seq::<char>::empty());
        assert(split_on(s, sep) =~= seq![s]);
    } else {
        lemma_split_on_no_sep(s.drop_first(), sep);
        let rest = split_on(s.drop_first(), sep);
        assert(rest[0] == s.drop_first());
        assert(seq![s[0]] + rest[0] =~= s);
        assert(split_on(s, sep) == rest.update(0, seq![s[0]] + rest[0]));
        assert(rest.update(0, seq![s[0]] + rest[0]) =~= seq![s]);
    }
}

/// Splitting a string that starts with a separator-free prefix `a`, then a
/// separator, then `b`, yields `a` followed by the parts of `b`.
pub proof fn lemma_split_on_sep(a: Seq<char>, b: Seq<char>, sep: char)
    requires
        forall|i: int| 0 <= i < a.len() ==> a[i] != sep,
    ensures
        split_on(a + seq![sep] + b, sep) == seq![a] + split_on(b, sep),
    decreases a.len(),
{
    let s = a + seq![sep] + b;
    if a.len() == 0 {
        assert(s[0] == sep);
        assert(s.drop_first() =~= b);
        assert(a =~= Seq::<char>::empty());
        assert(split_on(s, sep) =~= seq![a] + split_on(b, sep));
    } else {
        lemma_split_on_sep(a.drop_first(), b, sep);
        assert(s[0] == a[0]);
        assert(s.drop_first() =~= a.drop_first() + seq![sep] + b);
        let rest = split_on(s.drop_first(), sep);
        lemma_split_on_len(b, sep);
        assert(rest == seq![a.drop_first()] + split_on(b, sep));
        assert(rest[0] == a.drop_first());
        assert(seq![s[0]] + rest[0] =~= a);
        assert(rest.update(0, a) =~= seq![a] + split_on(b, sep));
        assert(split_on(s, sep) == rest.update(0, seq![s[0]] + rest[0]));
    }
}

/// The character views of a sequence of string slices.
pub open spec fn views_of(ts: Seq<&str>) -> Seq<Seq<char>> {
    ts.map_values(|t: &str| t@)
}

/// Splits `s` on the separator character, exactly as the [`split_on`]
/// specification describes.
pub fn split_str<'a>(s: &'a str, sep: char) -> (parts: Vec<&'a str>)
    ensures
        views_of(parts@) == split_on(s@, sep),
        parts@.len() == split_on(s@, sep).len(),
        forall|i: int| 0 <= i < parts@.len() ==> parts@[i]@ == split_on(s@, sep)[i],
{
    let n = s.unicode_len();
    let mut parts: Vec<&'a str> = Vec::new();
    let mut token_start: usize = 0;
    let mut i: usize = 0;
    proof {
        assert(s@.subrange(0, n as int) =~= s@);
        assert(views_of(parts@) + split_on(s@, sep) =~= split_on(s@, sep));
    }
    while i < n
        invariant
            0 <= token_start <= i <= n,
            n == s@.len(),
            forall|j: int| token_start <= j < i ==> s@[j] != sep,
            split_on(s@, sep) == views_of(parts@) + split_on(
                s@.subrange(token_start as int, n as int),
                sep,
            ),
        decreases n - i,
    {
        let c = s.get_char(i);
        if c == sep {
            let token = s.substring_char(token_start, i);
            proof {
                let suffix = s@.subrange(token_start as int, n as int);
                assert(suffix =~= token@ + seq![sep] + s@.subrange(i + 1, n as int));
                lemma_split_on_sep(token@, s@.subrange(i + 1, n as int), sep);
                assert(views_of(parts@.push(token)) =~= views_of(parts@) + seq![token@]);
                assert((views_of(parts@) + seq![token@]) + split_on(
                    s@.subrange(i + 1, n as int),
                    sep,
                ) =~= views_of(parts@) + (seq![token@] + split_on(
                    s@.subrange(i + 1, n as int),
                    sep,
                )));
            }
            parts.push(token);
            token_start = i + 1;
        }
        i = i + 1;
    }
    let token = s.substring_char(token_start, n);
    proof {
        let suffix = s@.subrange(token_start as int, n as int);
        assert(suffix =~= token@);
        lemma_split_on_no_sep(token@, sep);
        assert(views_of(parts@.push(token)) =~= views_of(parts@) + seq![token@]);
    }
    parts.push(token);
    proof {
        assert(forall|i: int|
            0 <= i < parts@.len() ==> parts@[i]@ == #[trigger] views_of(parts@)[i]);
    }
    parts
}

} // verus!
