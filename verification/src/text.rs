//! Decimal numbers and small text operations on `Seq<char>` models.

use vstd::prelude::*;

verus! {

/// The text of an optional string.
pub open spec fn opt_text(o: Option<String>) -> Option<Seq<char>> {
    match o {
        Some(s) => Some(s@),
        None => None,
    }
}

/// Whether `c` is an ASCII decimal digit.
pub open spec fn is_digit(c: char) -> bool {
    '0' <= c && c <= '9'
}

/// The numeric value of a decimal digit.
pub open spec fn digit_value(c: char) -> int {
    (c as int) - ('0' as int)
}

/// Every character of `s` is a decimal digit.
pub open spec fn all_digits(s: Seq<char>) -> bool {
    forall|i: int| 0 <= i < s.len() ==> is_digit(#[trigger] s[i])
}

/// The value of a string of decimal digits, most significant first.
pub open spec fn digits_value(s: Seq<char>) -> int
    decreases s.len(),
{
    if s.len() == 0 {
        0
    } else {
        digits_value(s.drop_last()) * 10 + digit_value(s.last())
    }
}

/// The digit character for `d` in `0..10`.
pub open spec fn digit_char(d: int) -> char {
    (('0' as int) + d) as char
}

/// Decimal text of a natural number, without leading zeros.
pub open spec fn natural_text(n: nat) -> Seq<char>
    decreases n,
{
    if n < 10 {
        seq![digit_char(n as int)]
    } else {
        natural_text(n / 10).push(digit_char((n % 10) as int))
    }
}

/// Decimal text of an integer, with a leading `-` when negative: what
/// `to_string` gives for the integer types.
pub open spec fn decimal_text(n: int) -> Seq<char> {
    if n < 0 {
        seq!['-'] + natural_text((-n) as nat)
    } else {
        natural_text(n as nat)
    }
}


/// What `str::parse` gives for an integer type whose values are `lo..=hi`:
/// an optional `+` sign (or `-` when the type is signed) followed by one or
/// more decimal digits, whose value must lie in the range.
pub open spec fn parsed_integer(s: Seq<char>, lo: int, hi: int) -> Option<int> {
    let negative = s.len() > 0 && s[0] == '-' && lo < 0;
    let body = if s.len() > 0 && (s[0] == '+' || negative) {
        s.drop_first()
    } else {
        s
    };
    if body.len() == 0 || !all_digits(body) {
        None
    } else {
        let v = if negative {
            -digits_value(body)
        } else {
            digits_value(body)
        };
        if lo <= v && v <= hi {
            Some(v)
        } else {
            None
        }
    }
}

/// Appending one more digit multiplies the value by ten and adds the digit.
proof fn lemma_digits_step(s: Seq<char>, a: int, b: int)
    requires
        0 <= a < b <= s.len(),
    ensures
        digits_value(s.subrange(a, b)) == digits_value(s.subrange(a, b - 1)) * 10 + digit_value(
            s[b - 1],
        ),
{
    assert(s.subrange(a, b).drop_last() =~= s.subrange(a, b - 1));
}

/// A prefix of a digit string is worth no more than the whole string.
proof fn lemma_digits_prefix_le(s: Seq<char>, k: int)
    requires
        all_digits(s),
        0 <= k <= s.len(),
    ensures
        0 <= digits_value(s.take(k)) <= digits_value(s),
    decreases s.len(),
{
    if s.len() == 0 {
        assert(s.take(k) =~= s);
    } else if k == s.len() {
        assert(s.take(k) =~= s);
        lemma_digits_nonneg(s);
    } else {
        let t = s.drop_last();
        assert(all_digits(t)) by {
            assert forall|i: int| 0 <= i < t.len() implies is_digit(#[trigger] t[i]) by {
                assert(t[i] == s[i]);
            }
        }
        lemma_digits_prefix_le(t, k);
        assert(t.take(k) =~= s.take(k));
        assert(is_digit(s[s.len() - 1]));
        lemma_digits_nonneg(t);
    }
}

/// The value of a digit string is never negative.
proof fn lemma_digits_nonneg(s: Seq<char>)
    requires
        all_digits(s),
    ensures
        digits_value(s) >= 0,
    decreases s.len(),
{
    if s.len() > 0 {
        let t = s.drop_last();
        assert(all_digits(t)) by {
            assert forall|i: int| 0 <= i < t.len() implies is_digit(#[trigger] t[i]) by {
                assert(t[i] == s[i]);
            }
        }
        lemma_digits_nonneg(t);
        assert(is_digit(s[s.len() - 1]));
    }
}

/// Parses `s` as `str::parse` does for an integer type with values `lo..=hi`.
fn parse_integer(s: &str, lo: i64, hi: i64) -> (r: Option<i64>)
    requires
        -0x8000_0000 <= lo <= 0 <= hi <= 0x7fff_ffff,
    ensures
        match r {
            Some(v) => parsed_integer(s@, lo as int, hi as int) == Some(v as int),
            None => parsed_integer(s@, lo as int, hi as int) is None,
        },
{
    let n = s.unicode_len();
    let mut start: usize = 0;
    let mut negative = false;
    if n > 0 {
        let c0 = s.get_char(0);
        if c0 == '+' {
            start = 1;
        } else if c0 == '-' && lo < 0 {
            start = 1;
            negative = true;
        }
    }
    let ghost body = s@.subrange(start as int, n as int);
    assert(start == 1 ==> body =~= s@.drop_first());
    assert(start == 0 ==> body =~= s@);
    if start == n {
        return None;
    }
    let mut acc: i64 = 0;
    let mut i: usize = start;
    while i < n
        invariant
            start <= i <= n,
            start < n,
            n == s@.len(),
            body == s@.subrange(start as int, n as int),
            all_digits(s@.subrange(start as int, i as int)),
            acc as int == digits_value(s@.subrange(start as int, i as int)),
            0 <= acc <= 0x8000_0000,
            -0x8000_0000 <= lo <= 0 <= hi <= 0x7fff_ffff,
            negative == (s@.len() > 0 && s@[0] == '-' && lo < 0),
            (start == 1) == (s@.len() > 0 && (s@[0] == '+' || negative)),
            start <= 1,
            start == 1 ==> body =~= s@.drop_first(),
            start == 0 ==> body =~= s@,
        decreases n - i,
    {
        let c = s.get_char(i);
        if !('0' <= c && c <= '9') {
            assert(body[i - start] == c);
            assert(!all_digits(body));
            return None;
        }
        proof {
            lemma_digits_step(s@, start as int, i + 1);
            assert(s@.subrange(start as int, i + 1).drop_last() =~= s@.subrange(
                start as int,
                i as int,
            ));
            assert forall|j: int|
                0 <= j < (i + 1 - start) implies is_digit(
                #[trigger] s@.subrange(start as int, i + 1)[j],
            ) by {
                if j < i - start {
                    assert(s@.subrange(start as int, i + 1)[j] == s@.subrange(
                        start as int,
                        i as int,
                    )[j]);
                }
            }
        }
        let d = (c as u32 - '0' as u32) as i64;
        acc = acc * 10 + d;
        i = i + 1;
        if acc > 0x8000_0000 {
            proof {
                if all_digits(body) {
                    assert(body.take(i - start) =~= s@.subrange(start as int, i as int));
                    lemma_digits_prefix_le(body, i - start);
                }
            }
            return None;
        }
    }
    assert(s@.subrange(start as int, i as int) =~= body);
    if negative {
        let v = -acc;
        if lo <= v && v <= hi {
            Some(v)
        } else {
            None
        }
    } else {
        if lo <= acc && acc <= hi {
            Some(acc)
        } else {
            None
        }
    }
}

/// `str::parse::<i32>`: `None` where the standard library reports an error.
pub fn parse_i32(s: &str) -> (r: Option<i32>)
    ensures
        match r {
            Some(v) => parsed_integer(s@, i32::MIN as int, i32::MAX as int) == Some(v as int),
            None => parsed_integer(s@, i32::MIN as int, i32::MAX as int) is None,
        },
{
    match parse_integer(s, -0x8000_0000, 0x7fff_ffff) {
        Some(v) => Some(v as i32),
        None => None,
    }
}

/// The number `s` reads as an `i32`, or zero when it reads as none.
pub open spec fn i32_or_zero(s: Seq<char>) -> int {
    match parsed_integer(s, i32::MIN as int, i32::MAX as int) {
        Some(v) => v,
        None => 0,
    }
}

/// `s.parse::<i32>().unwrap_or(0)`.
pub fn parse_i32_or_zero(s: &str) -> (r: i32)
    ensures
        r == i32_or_zero(s@),
{
    match parse_i32(s) {
        Some(v) => v,
        None => 0,
    }
}

/// `str::parse::<u8>`: `None` where the standard library reports an error.
pub fn parse_u8(s: &str) -> (r: Option<u8>)
    ensures
        match r {
            Some(v) => parsed_integer(s@, 0, 255) == Some(v as int),
            None => parsed_integer(s@, 0, 255) is None,
        },
{
    match parse_integer(s, 0, 255) {
        Some(v) => Some(v as u8),
        None => None,
    }
}


/// Whether `s` is the text `lit`.
pub fn text_is(s: &String, lit: &str) -> (b: bool)
    ensures
        b == (s@ == lit@),
{
    let l = lit.to_owned();
    *s == l
}

/// `String::push`: the character is appended at the end of the string.
#[verifier::external_body]
fn push_char(s: &mut String, c: char)
    ensures
        final(s)@ == old(s)@.push(c),
{
    s.push(c);
}

/// The digit character for `d`, computed.
fn digit_of(d: i64) -> (c: char)
    requires
        0 <= d < 10,
    ensures
        c == digit_char(d as int),
{
    let b: u8 = 48u8 + (d as u8);
    b as char
}

/// Decimal text of `n` as `to_string` writes it.
pub fn i32_text(n: i32) -> (s: String)
    ensures
        s@ == decimal_text(n as int),
{
    let big: i64 = n as i64;
    let magnitude: i64 = if big < 0 {
        -big
    } else {
        big
    };
    let mut m: i64 = magnitude;
    let mut tail: Vec<char> = Vec::new();
    loop
        invariant_except_break
            natural_text(magnitude as nat) == natural_text(m as nat) + tail@,
        invariant
            0 <= m <= magnitude,
            magnitude < 0x1_0000_0000,
        ensures
            natural_text(magnitude as nat) == tail@,
        decreases m,
    {
        if m < 10 {
            let c = digit_of(m);
            assert(natural_text(m as nat) == seq![c]);
            tail.insert(0, c);
            assert(natural_text(magnitude as nat) =~= tail@);
            break;
        }
        let c = digit_of(m % 10);
        let ghost before = tail@;
        tail.insert(0, c);
        assert(natural_text(m as nat) == natural_text((m / 10) as nat).push(c));
        assert(natural_text((m / 10) as nat).push(c) + before =~= natural_text((m / 10) as nat)
            + tail@);
        m = m / 10;
    }
    let mut s = String::new();
    let ghost lead: Seq<char> = if n < 0 {
        seq!['-']
    } else {
        Seq::empty()
    };
    if n < 0 {
        push_char(&mut s, '-');
    }
    assert(s@ =~= lead);
    let mut k: usize = 0;
    while k < tail.len()
        invariant
            0 <= k <= tail@.len(),
            s@ =~= lead + tail@.take(k as int),
        decreases tail@.len() - k,
    {
        push_char(&mut s, tail[k]);
        assert(tail@.take(k + 1) =~= tail@.take(k as int).push(tail@[k as int]));
        k = k + 1;
    }
    assert(tail@.take(k as int) =~= tail@);
    s
}

/// A digit character is a digit and is worth its number.
proof fn lemma_digit_char(d: int)
    requires
        0 <= d < 10,
    ensures
        is_digit(digit_char(d)),
        digit_value(digit_char(d)) == d,
{
    assert((('0' as int) + d) as char as int == ('0' as int) + d);
}

/// `natural_text` is a non-empty string of digits worth the number.
proof fn lemma_natural_text(n: nat)
    ensures
        natural_text(n).len() > 0,
        all_digits(natural_text(n)),
        digits_value(natural_text(n)) == n,
    decreases n,
{
    lemma_digit_char((n % 10) as int);
    if n < 10 {
        assert(natural_text(n).drop_last() =~= Seq::<char>::empty());
        assert(n % 10 == n);
        assert(digits_value(Seq::<char>::empty()) == 0);
        assert(natural_text(n).last() == digit_char(n as int));
    } else {
        lemma_natural_text(n / 10);
        let t = natural_text(n / 10);
        let u = t.push(digit_char((n % 10) as int));
        assert(u.drop_last() =~= t);
        assert(u.last() == digit_char((n % 10) as int));
        assert(digits_value(u) == digits_value(t) * 10 + digit_value(u.last()));
        assert(n == (n / 10) * 10 + n % 10);
        assert forall|i: int| 0 <= i < u.len() implies is_digit(#[trigger] u[i]) by {
            if i < t.len() {
                assert(u[i] == t[i]);
            }
        }
    }
}

/// Reading back the decimal text of any `i32` gives the same number: an id
/// handed out as text is recognised when it comes back.
pub proof fn lemma_i32_text_round_trip(n: i32)
    ensures
        parsed_integer(decimal_text(n as int), i32::MIN as int, i32::MAX as int) == Some(
            n as int,
        ),
{
    if n < 0 {
        let m = (-(n as int)) as nat;
        lemma_natural_text(m);
        let t = seq!['-'] + natural_text(m);
        assert(t.drop_first() =~= natural_text(m));
        assert(t[0] == '-');
    } else {
        lemma_natural_text(n as nat);
        let t = natural_text(n as nat);
        assert(is_digit(t[0]));
    }
}


/// Unicode `White_Space`, the characters `char::is_whitespace` accepts.
pub open spec fn is_white_space(c: char) -> bool {
    ||| '\u{9}' <= c && c <= '\u{d}'
    ||| c == ' '
    ||| c == '\u{85}'
    ||| c == '\u{a0}'
    ||| c == '\u{1680}'
    ||| '\u{2000}' <= c && c <= '\u{200a}'
    ||| c == '\u{2028}'
    ||| c == '\u{2029}'
    ||| c == '\u{202f}'
    ||| c == '\u{205f}'
    ||| c == '\u{3000}'
}

/// `s` without its leading white space.
pub open spec fn trim_start(s: Seq<char>) -> Seq<char>
    decreases s.len(),
{
    if s.len() > 0 && is_white_space(s[0]) {
        trim_start(s.drop_first())
    } else {
        s
    }
}

/// `s` without its trailing white space.
pub open spec fn trim_end(s: Seq<char>) -> Seq<char>
    decreases s.len(),
{
    if s.len() > 0 && is_white_space(s.last()) {
        trim_end(s.drop_last())
    } else {
        s
    }
}

/// `s` without leading and trailing white space, as `str::trim` gives it.
pub open spec fn trimmed(s: Seq<char>) -> Seq<char> {
    trim_end(trim_start(s))
}

/// The part of `s` before its first `:`, or all of `s` when it has none: the
/// first piece `str::split(":")` yields.
pub open spec fn before_colon(s: Seq<char>) -> Seq<char>
    decreases s.len(),
{
    if s.len() == 0 {
        s
    } else if s[0] == ':' {
        Seq::empty()
    } else {
        seq![s[0]] + before_colon(s.drop_first())
    }
}

fn white_space(c: char) -> (b: bool)
    ensures
        b == is_white_space(c),
{
    ('\u{9}' <= c && c <= '\u{d}') || c == ' ' || c == '\u{85}' || c == '\u{a0}' || c
        == '\u{1680}' || ('\u{2000}' <= c && c <= '\u{200a}') || c == '\u{2028}' || c
        == '\u{2029}' || c == '\u{202f}' || c == '\u{205f}' || c == '\u{3000}'
}

proof fn lemma_trim_start(s: Seq<char>, i: int)
    requires
        0 <= i <= s.len(),
        forall|k: int| 0 <= k < i ==> is_white_space(#[trigger] s[k]),
        i == s.len() || !is_white_space(s[i]),
    ensures
        trim_start(s) == s.subrange(i, s.len() as int),
    decreases i,
{
    if i == 0 {
        assert(s.subrange(0, s.len() as int) =~= s);
    } else {
        let t = s.drop_first();
        assert forall|k: int| 0 <= k < i - 1 implies is_white_space(#[trigger] t[k]) by {
            assert(t[k] == s[k + 1]);
        }
        assert(i - 1 == t.len() || t[i - 1] == s[i]);
        lemma_trim_start(t, i - 1);
        assert(t.subrange(i - 1, t.len() as int) =~= s.subrange(i, s.len() as int));
        assert(is_white_space(s[0]));
    }
}

proof fn lemma_trim_end(t: Seq<char>, j: int)
    requires
        0 <= j <= t.len(),
        forall|k: int| j <= k < t.len() ==> is_white_space(#[trigger] t[k]),
        j == 0 || !is_white_space(t[j - 1]),
    ensures
        trim_end(t) == t.subrange(0, j),
    decreases t.len() - j,
{
    if j == t.len() {
        assert(t.subrange(0, j) =~= t);
    } else {
        let u = t.drop_last();
        assert forall|k: int| j <= k < u.len() implies is_white_space(#[trigger] u[k]) by {
            assert(u[k] == t[k]);
        }
        assert(j == 0 || u[j - 1] == t[j - 1]);
        lemma_trim_end(u, j);
        assert(u.subrange(0, j) =~= t.subrange(0, j));
        assert(is_white_space(t[t.len() - 1]));
    }
}

/// `str::trim` followed by `to_string`.
pub fn trim_text(s: &str) -> (r: String)
    ensures
        r@ == trimmed(s@),
{
    let n = s.unicode_len();
    let mut i: usize = 0;
    while i < n && white_space(s.get_char(i))
        invariant
            0 <= i <= n,
            n == s@.len(),
            forall|k: int| 0 <= k < i ==> is_white_space(#[trigger] s@[k]),
        decreases n - i,
    {
        i = i + 1;
    }
    proof {
        lemma_trim_start(s@, i as int);
    }
    let mut j: usize = n;
    while j > i && white_space(s.get_char(j - 1))
        invariant
            i <= j <= n,
            n == s@.len(),
            forall|k: int| j <= k < n ==> is_white_space(#[trigger] s@[k]),
        decreases j,
    {
        j = j - 1;
    }
    proof {
        let t = s@.subrange(i as int, n as int);
        assert forall|k: int| j - i <= k < t.len() implies is_white_space(#[trigger] t[k]) by {
            assert(t[k] == s@[k + i]);
        }
        if j > i {
            assert(t[j - i - 1] == s@[j - 1]);
        }
        lemma_trim_end(t, j - i);
        assert(t.subrange(0, j - i) =~= s@.subrange(i as int, j as int));
    }
    s.substring_char(i, j).to_owned()
}

proof fn lemma_before_colon(s: Seq<char>, k: int)
    requires
        0 <= k <= s.len(),
        forall|m: int| 0 <= m < k ==> #[trigger] s[m] != ':',
        k == s.len() || s[k] == ':',
    ensures
        before_colon(s) == s.take(k),
    decreases k,
{
    if k == 0 {
        assert(s.take(0) =~= Seq::<char>::empty());
        if s.len() == 0 {
            assert(s =~= Seq::<char>::empty());
        }
    } else {
        let t = s.drop_first();
        assert forall|m: int| 0 <= m < k - 1 implies #[trigger] t[m] != ':' by {
            assert(t[m] == s[m + 1]);
        }
        assert(k - 1 == t.len() || t[k - 1] == s[k]);
        lemma_before_colon(t, k - 1);
        assert(seq![s[0]] + t.take(k - 1) =~= s.take(k));
    }
}

/// The first piece of `s.split(":")`, as an owned string.
pub fn text_before_colon(s: &str) -> (r: String)
    ensures
        r@ == before_colon(s@),
{
    let n = s.unicode_len();
    let mut k: usize = 0;
    while k < n && s.get_char(k) != ':'
        invariant
            0 <= k <= n,
            n == s@.len(),
            forall|m: int| 0 <= m < k ==> #[trigger] s@[m] != ':',
        decreases n - k,
    {
        k = k + 1;
    }
    proof {
        lemma_before_colon(s@, k as int);
    }
    s.substring_char(0, k).to_owned()
}

} // verus!
