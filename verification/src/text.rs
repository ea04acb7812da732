//! Small string utilities with exact contracts over character sequences.

use vstd::prelude::*;
use vstd::string::*;

verus! {

/// Equality of two string slices, character by character.
pub fn str_eq(a: &str, b: &str) -> (r: bool)
    ensures
        r == (a@ == b@),
{
    let n = a.unicode_len();
    if n != b.unicode_len() {
        return false;
    }
    let mut i: usize = 0;
    while i < n
        invariant
            n == a@.len(),
            n == b@.len(),
            i <= n,
            forall|k: int| 0 <= k < i ==> a@[k] == b@[k],
        decreases n - i,
    {
        if a.get_char(i) != b.get_char(i) {
            return false;
        }
        i = i + 1;
    }
    assert(a@ =~= b@);
    true
}

} // verus!

verus! {

/// Appends one character to a string.
///
/// Wraps `String::push`; the contract states that the character is
/// added at the end and nothing else changes.
#[verifier::external_body]
pub(crate) fn push_char(s: &mut String, c: char)
    ensures
        final(s)@ == old(s)@.push(c),
{
    s.push(c);
}

/// Appends a string slice to a string.
pub fn push_str(s: &mut String, t: &str)
    ensures
        final(s)@ == old(s)@ + t@,
{
    s.append(t);
}

/// The character of a decimal digit `d` (0 to 9).
pub open spec fn digit_char_spec(d: int) -> char {
    if d == 0 { '0' }
    else if d == 1 { '1' }
    else if d == 2 { '2' }
    else if d == 3 { '3' }
    else if d == 4 { '4' }
    else if d == 5 { '5' }
    else if d == 6 { '6' }
    else if d == 7 { '7' }
    else if d == 8 { '8' }
    else { '9' }
}

/// Decimal representation of a natural number, most significant digit
/// first, without leading zeros ("0" for zero).
pub open spec fn decimal_digits(n: nat) -> Seq<char>
    decreases n,
{
    if n < 10 {
        seq![digit_char_spec(n as int)]
    } else {
        decimal_digits(n / 10).push(digit_char_spec((n % 10) as int))
    }
}

/// Decimal representation of an integer, with a leading '-' when negative.
pub open spec fn int_decimal(i: int) -> Seq<char> {
    if i < 0 {
        seq!['-'] + decimal_digits((-i) as nat)
    } else {
        decimal_digits(i as nat)
    }
}

fn digit_char(d: u64) -> (c: char)
    requires
        d < 10,
    ensures
        c == digit_char_spec(d as int),
{
    if d == 0 { '0' }
    else if d == 1 { '1' }
    else if d == 2 { '2' }
    else if d == 3 { '3' }
    else if d == 4 { '4' }
    else if d == 5 { '5' }
    else if d == 6 { '6' }
    else if d == 7 { '7' }
    else if d == 8 { '8' }
    else { '9' }
}

/// Appends the decimal representation of `n`.
pub fn push_decimal(s: &mut String, n: u64)
    ensures
        final(s)@ == old(s)@ + decimal_digits(n as nat),
    decreases n,
{
    if n >= 10 {
        push_decimal(s, n / 10);
    }
    push_char(s, digit_char(n % 10));
    proof {
        if n >= 10 {
            assert(old(s)@ + decimal_digits((n / 10) as nat) + seq![digit_char_spec((n % 10) as int)]
                =~= old(s)@ + decimal_digits(n as nat));
        } else {
            assert(old(s)@.push(digit_char_spec((n % 10) as int)) =~= old(s)@ + decimal_digits(n as nat));
        }
    }
}

/// Appends the decimal representation of a signed integer.
pub fn push_i64_decimal(s: &mut String, n: i64)
    ensures
        final(s)@ == old(s)@ + int_decimal(n as int),
{
    if n < 0 {
        push_char(s, '-');
        let m: u64 = if n == i64::MIN {
            9223372036854775808u64
        } else {
            (-n) as u64
        };
        push_decimal(s, m);
        assert(old(s)@.push('-') + decimal_digits(m as nat) =~= old(s)@ + int_decimal(n as int));
    } else {
        push_decimal(s, n as u64);
    }
}

/// Decimal text of an unsigned integer, as `to_string` gives it.
pub fn u64_to_decimal(n: u64) -> (r: String)
    ensures
        r@ == decimal_digits(n as nat),
{
    let mut s = String::new();
    push_decimal(&mut s, n);
    assert(Seq::<char>::empty() + decimal_digits(n as nat) =~= decimal_digits(n as nat));
    s
}

/// Decimal text of a signed integer, as `to_string` gives it.
pub fn i64_to_decimal(n: i64) -> (r: String)
    ensures
        r@ == int_decimal(n as int),
{
    let mut s = String::new();
    push_i64_decimal(&mut s, n);
    assert(Seq::<char>::empty() + int_decimal(n as int) =~= int_decimal(n as int));
    s
}

} // verus!

verus! {

/// ASCII decimal digit.
pub open spec fn is_digit(c: char) -> bool {
    '0' <= c && c <= '9'
}

pub open spec fn all_digits(s: Seq<char>) -> bool {
    forall|i: int| 0 <= i < s.len() ==> is_digit(#[trigger] s[i])
}

/// Value of a run of decimal digits, most significant first.
pub open spec fn digits_value(s: Seq<char>) -> nat
    decreases s.len(),
{
    if s.len() == 0 {
        0
    } else {
        digits_value(s.drop_last()) * 10 + ((s.last() as int) - 48) as nat
    }
}

/// The digits part of an unsigned number: one optional leading '+' removed.
pub open spec fn unsigned_body(s: Seq<char>) -> Seq<char> {
    if s.len() > 0 && s[0] == '+' {
        s.drop_first()
    } else {
        s
    }
}

/// What `str::parse` gives for an unsigned integer type whose largest
/// value is `max`: an optional '+', then at least one ASCII digit, and a
/// value that fits.
pub open spec fn parse_unsigned(s: Seq<char>, max: int) -> Option<int> {
    let body = unsigned_body(s);
    if body.len() > 0 && all_digits(body) && digits_value(body) <= max {
        Some(digits_value(body) as int)
    } else {
        None
    }
}

/// What `str::parse::<i64>` gives: an optional sign ('+' or '-'), then at
/// least one ASCII digit, and a value in the `i64` range.
pub open spec fn parse_i64_spec(s: Seq<char>) -> Option<int> {
    if s.len() > 0 && s[0] == '-' {
        let body = s.drop_first();
        if body.len() > 0 && all_digits(body) && digits_value(body) <= 9223372036854775808 {
            Some(-(digits_value(body) as int))
        } else {
            None
        }
    } else {
        parse_unsigned(s, 9223372036854775807)
    }
}

/// What `str::parse::<bool>` gives.
pub open spec fn parse_bool_spec(s: Seq<char>) -> Option<bool> {
    if s == seq!['t', 'r', 'u', 'e'] {
        Some(true)
    } else if s == seq!['f', 'a', 'l', 's', 'e'] {
        Some(false)
    } else {
        None
    }
}

proof fn lemma_digits_value_prefix(s: Seq<char>, i: int)
    requires
        0 <= i <= s.len(),
        all_digits(s),
    ensures
        digits_value(s.take(i)) <= digits_value(s),
    decreases s.len() - i,
{
    if i < s.len() {
        lemma_digits_value_prefix(s, i + 1);
        assert(s.take(i + 1).drop_last() =~= s.take(i));
        assert(is_digit(s[i]));
    } else {
        assert(s.take(i) =~= s);
    }
}

/// Digits of `s` from character `start` on, read as a number no larger
/// than `max`; `None` when a character is not a digit, there are no
/// digits, or the value is larger than `max`.
fn parse_digits_from(s: &str, start: usize, max: u64) -> (r: Option<u64>)
    requires
        start <= s@.len(),
    ensures
        ({
            let body = s@.skip(start as int);
            match r {
                Some(v) => body.len() > 0 && all_digits(body) && digits_value(body) <= max
                    && v == digits_value(body),
                None => !(body.len() > 0 && all_digits(body) && digits_value(body) <= max),
            }
        }),
{
    let n = s.unicode_len();
    let ghost body = s@.skip(start as int);
    if start >= n {
        return None;
    }
    let mut i = start;
    while i < n
        invariant
            n == s@.len(),
            start <= i <= n,
            body == s@.skip(start as int),
            forall|k: int| start <= k < i ==> is_digit(#[trigger] s@[k]),
        decreases n - i,
    {
        let c = s.get_char(i);
        if !('0' <= c && c <= '9') {
            assert(body[i - start] == c);
            return None;
        }
        i = i + 1;
    }
    assert(all_digits(body));
    let mut acc: u64 = 0;
    let mut j = start;
    while j < n
        invariant
            n == s@.len(),
            start <= j <= n,
            body == s@.skip(start as int),
            all_digits(body),
            acc == digits_value(body.take(j - start)),
            acc <= max,
        decreases n - j,
    {
        let c = s.get_char(j);
        assert(body[j - start] == c);
        assert(is_digit(body[j - start]));
        assert(body.take(j + 1 - start).drop_last() =~= body.take(j - start));
        let d: u64 = (c as u32 - 48) as u64;
        let next: u128 = acc as u128 * 10 + d as u128;
        if next > max as u128 {
            proof {
                lemma_digits_value_prefix(body, j + 1 - start);
            }
            return None;
        }
        acc = next as u64;
        j = j + 1;
    }
    assert(body.take(n - start) =~= body);
    Some(acc)
}

} // verus!

verus! {

/// Parses an unsigned decimal number no larger than `max`, with the
/// syntax `str::parse` accepts for unsigned integer types.
pub fn parse_unsigned_bounded(s: &str, max: u64) -> (r: Option<u64>)
    ensures
        match parse_unsigned(s@, max as int) {
            Some(v) => r == Some(v as u64),
            None => r is None,
        },
{
    let n = s.unicode_len();
    if n > 0 && s.get_char(0) == '+' {
        assert(s@.skip(1) =~= s@.drop_first());
        parse_digits_from(s, 1, max)
    } else {
        assert(s@.skip(0) =~= s@);
        parse_digits_from(s, 0, max)
    }
}

/// `str::parse::<u16>`.
pub fn parse_u16(s: &str) -> (r: Option<u16>)
    ensures
        match parse_unsigned(s@, 65535) {
            Some(v) => r == Some(v as u16),
            None => r is None,
        },
{
    match parse_unsigned_bounded(s, 65535) {
        Some(v) => Some(v as u16),
        None => None,
    }
}

/// `str::parse::<u32>`.
pub fn parse_u32(s: &str) -> (r: Option<u32>)
    ensures
        match parse_unsigned(s@, 4294967295) {
            Some(v) => r == Some(v as u32),
            None => r is None,
        },
{
    match parse_unsigned_bounded(s, 4294967295) {
        Some(v) => Some(v as u32),
        None => None,
    }
}

/// `str::parse::<u64>`.
pub fn parse_u64(s: &str) -> (r: Option<u64>)
    ensures
        match parse_unsigned(s@, 18446744073709551615) {
            Some(v) => r == Some(v as u64),
            None => r is None,
        },
{
    parse_unsigned_bounded(s, 18446744073709551615)
}

/// `str::parse::<usize>`.
pub fn parse_usize(s: &str) -> (r: Option<usize>)
    ensures
        match parse_unsigned(s@, usize::MAX as int) {
            Some(v) => r == Some(v as usize),
            None => r is None,
        },
{
    match parse_unsigned_bounded(s, usize::MAX as u64) {
        Some(v) => Some(v as usize),
        None => None,
    }
}

/// `str::parse::<i64>`.
pub fn parse_i64(s: &str) -> (r: Option<i64>)
    ensures
        match parse_i64_spec(s@) {
            Some(v) => r == Some(v as i64),
            None => r is None,
        },
{
    let n = s.unicode_len();
    if n > 0 && s.get_char(0) == '-' {
        assert(s@.skip(1) =~= s@.drop_first());
        match parse_digits_from(s, 1, 9223372036854775808) {
            Some(m) => {
                if m == 9223372036854775808 {
                    Some(i64::MIN)
                } else {
                    Some(-(m as i64))
                }
            },
            None => None,
        }
    } else {
        match parse_unsigned_bounded(s, 9223372036854775807) {
            Some(v) => Some(v as i64),
            None => None,
        }
    }
}

/// `str::parse::<bool>`: exactly "true" or "false".
pub fn parse_bool(s: &str) -> (r: Option<bool>)
    ensures
        r == parse_bool_spec(s@),
{
    let t = "true";
    let f = "false";
    proof {
        reveal_strlit("true");
        reveal_strlit("false");
        assert(t@ =~= seq!['t', 'r', 'u', 'e']);
        assert(f@ =~= seq!['f', 'a', 'l', 's', 'e']);
    }
    if str_eq(s, t) {
        Some(true)
    } else if str_eq(s, f) {
        Some(false)
    } else {
        None
    }
}

} // verus!

verus! {

/// The characters with the Unicode `White_Space` property: U+0009 to
/// U+000D, U+0020, U+0085, U+00A0, U+1680, U+2000 to U+200A, U+2028,
/// U+2029, U+202F, U+205F and U+3000.
pub open spec fn unicode_whitespace(c: char) -> bool {
    let u = c as u32;
    ||| 0x9 <= u && u <= 0xD
    ||| u == 0x20
    ||| u == 0x85
    ||| u == 0xA0
    ||| u == 0x1680
    ||| 0x2000 <= u && u <= 0x200A
    ||| u == 0x2028
    ||| u == 0x2029
    ||| u == 0x202F
    ||| u == 0x205F
    ||| u == 0x3000
}

/// Whether a character is white space (what `char::is_whitespace`
/// gives: the Unicode `White_Space` property).
fn is_whitespace(c: char) -> (b: bool)
    ensures
        b == unicode_whitespace(c),
{
    let u = c as u32;
    (0x9 <= u && u <= 0xD) || u == 0x20 || u == 0x85 || u == 0xA0 || u == 0x1680
        || (0x2000 <= u && u <= 0x200A) || u == 0x2028 || u == 0x2029 || u == 0x202F
        || u == 0x205F || u == 0x3000
}

/// `s` without its longest prefix of characters satisfying `p`.
pub open spec fn strip_front(s: Seq<char>, p: spec_fn(char) -> bool) -> Seq<char>
    decreases s.len(),
{
    if s.len() > 0 && p(s[0]) {
        strip_front(s.drop_first(), p)
    } else {
        s
    }
}

/// `s` without its longest suffix of characters satisfying `p`.
pub open spec fn strip_back(s: Seq<char>, p: spec_fn(char) -> bool) -> Seq<char>
    decreases s.len(),
{
    if s.len() > 0 && p(s.last()) {
        strip_back(s.drop_last(), p)
    } else {
        s
    }
}

/// The characters removed by a trim.
#[derive(Debug, Clone, PartialEq, Eq)]
pub enum TrimKind {
    /// The double quote character, as `trim_matches('"')` removes it.
    Quote,
    /// Unicode white space, as `str::trim` removes it.
    Whitespace,
}

pub open spec fn trim_pred(k: TrimKind) -> spec_fn(char) -> bool {
    match k {
        TrimKind::Quote => |c: char| c == '"',
        TrimKind::Whitespace => |c: char| unicode_whitespace(c),
    }
}

/// `s` with every leading and trailing character of kind `k` removed.
pub open spec fn trim_spec(s: Seq<char>, k: TrimKind) -> Seq<char> {
    strip_back(strip_front(s, trim_pred(k)), trim_pred(k))
}

fn trim_char_matches(c: char, k: &TrimKind) -> (b: bool)
    ensures
        b == (trim_pred(*k))(c),
{
    match k {
        TrimKind::Quote => c == '"',
        TrimKind::Whitespace => is_whitespace(c),
    }
}

proof fn lemma_strip_front_skip(s: Seq<char>, p: spec_fn(char) -> bool, a: int)
    requires
        0 <= a <= s.len(),
        forall|k: int| 0 <= k < a ==> p(#[trigger] s[k]),
        a == s.len() || !p(s[a]),
    ensures
        strip_front(s, p) == s.skip(a),
    decreases a,
{
    if a > 0 {
        assert forall|k: int| 0 <= k < a - 1 implies p(#[trigger] s.drop_first()[k]) by {
            assert(s.drop_first()[k] == s[k + 1]);
        }
        if a - 1 < s.drop_first().len() {
            assert(s.drop_first()[a - 1] == s[a]);
        }
        lemma_strip_front_skip(s.drop_first(), p, a - 1);
        assert(s.drop_first().skip(a - 1) =~= s.skip(a));
    } else {
        assert(s.skip(0) =~= s);
    }
}

proof fn lemma_strip_back_take(s: Seq<char>, p: spec_fn(char) -> bool, b: int)
    requires
        0 <= b <= s.len(),
        forall|k: int| b <= k < s.len() ==> p(#[trigger] s[k]),
        b == 0 || !p(s[b - 1]),
    ensures
        strip_back(s, p) == s.take(b),
    decreases s.len() - b,
{
    if b < s.len() {
        assert forall|k: int| b <= k < s.drop_last().len() implies p(#[trigger] s.drop_last()[k]) by {
            assert(s.drop_last()[k] == s[k]);
        }
        if b > 0 {
            assert(s.drop_last()[b - 1] == s[b - 1]);
        }
        assert(p(s[s.len() - 1]));
        lemma_strip_back_take(s.drop_last(), p, b);
        assert(s.drop_last().take(b) =~= s.take(b));
    } else {
        assert(s.take(b) =~= s);
    }
}

/// Removes every leading and trailing character of kind `k`, as
/// `trim_matches('"')` or `trim()` do.
pub fn trim_kind(s: &str, k: TrimKind) -> (r: String)
    ensures
        r@ == trim_spec(s@, k),
{
    let n = s.unicode_len();
    let ghost p = trim_pred(k);
    let mut a: usize = 0;
    while a < n && trim_char_matches(s.get_char(a), &k)
        invariant
            n == s@.len(),
            a <= n,
            p == trim_pred(k),
            forall|i: int| 0 <= i < a ==> p(#[trigger] s@[i]),
        decreases n - a,
    {
        a = a + 1;
    }
    proof {
        lemma_strip_front_skip(s@, p, a as int);
    }
    let ghost front = s@.skip(a as int);
    let mut b: usize = n;
    while b > a && trim_char_matches(s.get_char(b - 1), &k)
        invariant
            n == s@.len(),
            a <= b <= n,
            p == trim_pred(k),
            front == s@.skip(a as int),
            forall|i: int| b <= i < n ==> p(#[trigger] s@[i]),
        decreases b,
    {
        b = b - 1;
    }
    proof {
        assert forall|i: int| b - a <= i < front.len() implies p(#[trigger] front[i]) by {
            assert(front[i] == s@[i + a]);
        }
        if b > a {
            assert(front[b - a - 1] == s@[b - 1]);
        }
        lemma_strip_back_take(front, p, b - a);
        assert(front.take(b - a) =~= s@.subrange(a as int, b as int));
    }
    s.substring_char(a, b).to_owned()
}

} // verus!

verus! {

/// The character sequences of a list of strings.
pub open spec fn views(v: Seq<String>) -> Seq<Seq<char>> {
    v.map_values(|x: String| x@)
}

/// The fields of `s` between separator characters (those satisfying
/// `p`), as `str::split` yields them: empty fields included, and one
/// field more than there are separators.
pub open spec fn split_by(s: Seq<char>, p: spec_fn(char) -> bool) -> Seq<Seq<char>>
    decreases s.len(),
{
    if s.len() == 0 {
        seq![Seq::<char>::empty()]
    } else {
        let prev = split_by(s.drop_last(), p);
        if p(s.last()) {
            prev.push(Seq::<char>::empty())
        } else {
            prev.update(prev.len() - 1, prev.last().push(s.last()))
        }
    }
}

pub open spec fn is_nonempty(w: Seq<char>) -> bool {
    w.len() > 0
}

/// The words of `s`: maximal runs of characters that are not white
/// space, as `str::split_whitespace` yields them.
pub open spec fn words(s: Seq<char>) -> Seq<Seq<char>> {
    split_by(s, trim_pred(TrimKind::Whitespace)).filter(|w: Seq<char>| is_nonempty(w))
}

proof fn lemma_split_by_nonempty(s: Seq<char>, p: spec_fn(char) -> bool)
    ensures
        split_by(s, p).len() >= 1,
    decreases s.len(),
{
    if s.len() > 0 {
        lemma_split_by_nonempty(s.drop_last(), p);
    }
}

/// The separators `split_fields` splits on.
#[derive(Debug, Clone, PartialEq, Eq)]
pub enum SplitKind {
    /// The comma character.
    Comma,
    /// Unicode white space.
    Whitespace,
}

pub open spec fn split_pred(k: SplitKind) -> spec_fn(char) -> bool {
    match k {
        SplitKind::Comma => |c: char| c == ',',
        SplitKind::Whitespace => trim_pred(TrimKind::Whitespace),
    }
}

fn split_char_matches(c: char, k: &SplitKind) -> (b: bool)
    ensures
        b == (split_pred(*k))(c),
{
    match k {
        SplitKind::Comma => c == ',',
        SplitKind::Whitespace => is_whitespace(c),
    }
}

/// All fields of `s` between separators of kind `k`.
pub fn split_fields(s: &str, k: SplitKind) -> (r: Vec<String>)
    ensures
        views(r@) == split_by(s@, split_pred(k)),
{
    let n = s.unicode_len();
    let ghost p = split_pred(k);
    let mut parts: Vec<String> = Vec::new();
    let mut cur = String::new();
    let mut i: usize = 0;
    assert(s@.take(0) =~= Seq::<char>::empty());
    assert(views(parts@).push(cur@) =~= split_by(s@.take(0), p));
    while i < n
        invariant
            n == s@.len(),
            i <= n,
            p == split_pred(k),
            views(parts@).push(cur@) == split_by(s@.take(i as int), p),
        decreases n - i,
    {
        let c = s.get_char(i);
        let ghost before = split_by(s@.take(i as int), p);
        assert(s@.take(i + 1).drop_last() =~= s@.take(i as int));
        assert(s@.take(i + 1).last() == c);
        if split_char_matches(c, &k) {
            let done = cur;
            parts.push(done);
            cur = String::new();
            assert(views(parts@).push(cur@) =~= before.push(Seq::<char>::empty()));
        } else {
            let ghost old_parts = parts@;
            push_char(&mut cur, c);
            assert(views(parts@).push(cur@) =~= before.update(before.len() - 1, before.last().push(c)));
        }
        i = i + 1;
    }
    parts.push(cur);
    assert(s@.take(n as int) =~= s@);
    assert(views(parts@) =~= split_by(s@, p));
    parts
}

/// The nonempty strings of `v`, in order.
pub fn keep_nonempty(v: Vec<String>) -> (r: Vec<String>)
    ensures
        views(r@) == views(v@).filter(|w: Seq<char>| is_nonempty(w)),
{
    let ghost pred = |w: Seq<char>| is_nonempty(w);
    let mut out: Vec<String> = Vec::new();
    let mut i: usize = 0;
    let n = v.len();
    assert(views(v@).take(0).filter(pred) =~= Seq::<Seq<char>>::empty()) by {
        reveal(Seq::filter);
    }
    while i < n
        invariant
            n == v@.len(),
            i <= n,
            pred == (|w: Seq<char>| is_nonempty(w)),
            views(out@) == views(v@).take(i as int).filter(pred),
        decreases n - i,
    {
        let w = &v[i];
        assert(views(v@).take(i + 1).drop_last() =~= views(v@).take(i as int));
        assert(views(v@).take(i + 1).last() == w@);
        assert(views(v@).take(i + 1).filter(pred) == if pred(w@) {
            views(v@).take(i as int).filter(pred).push(w@)
        } else {
            views(v@).take(i as int).filter(pred)
        }) by {
            reveal(Seq::filter);
        }
        if w.unicode_len() > 0 {
            out.push(w.clone());
            assert(views(out@) =~= views(v@).take(i as int).filter(pred).push(w@));
        }
        i = i + 1;
    }
    assert(views(v@).take(n as int) =~= views(v@));
    out
}

/// The words of `s`, as `str::split_whitespace` yields them.
pub fn split_whitespace(s: &str) -> (r: Vec<String>)
    ensures
        views(r@) == words(s@),
{
    let fields = split_fields(s, SplitKind::Whitespace);
    keep_nonempty(fields)
}

} // verus!

verus! {

/// What `str::to_lowercase` gives for a character sequence (the
/// Unicode lowercase mapping); a function of the sequence alone.
pub uninterp spec fn lowercase(s: Seq<char>) -> Seq<char>;

/// Whether every character of `s` is ASCII.
pub open spec fn all_ascii(s: Seq<char>) -> bool {
    forall|i: int| 0 <= i < s.len() ==> (#[trigger] s[i] as u32) < 128
}

/// The ASCII lowercase of a character: 'A' to 'Z' become 'a' to 'z',
/// every other character is kept.
pub open spec fn ascii_lower_char(c: char) -> char {
    if 'A' <= c && c <= 'Z' { ((c as u32) + 32) as char } else { c }
}

/// The lowercase of a text: on ASCII text the Unicode lowercase
/// mapping is the ASCII one (the letters 'A' to 'Z' become 'a' to 'z',
/// nothing else changes); other text maps as `lowercase` names it.
pub open spec fn text_lowercase(s: Seq<char>) -> Seq<char> {
    if all_ascii(s) { s.map_values(|c: char| ascii_lower_char(c)) } else { lowercase(s) }
}

/// Wraps `str::to_lowercase`: the Unicode lowercase mapping, spelled out
/// for ASCII text and named `lowercase` for other text (together, the
/// result is `text_lowercase` of the text).
#[verifier::external_body]
pub(crate) fn to_lowercase(s: &str) -> (r: String)
    ensures
        all_ascii(s@) ==> r@ == s@.map_values(|c: char| ascii_lower_char(c)),
        !all_ascii(s@) ==> r@ == lowercase(s@),
{
    s.to_lowercase()
}

/// `parts` joined with `sep` between consecutive parts, as
/// `[..].join(sep)` gives it.
pub open spec fn join_spec(parts: Seq<Seq<char>>, sep: Seq<char>) -> Seq<char>
    decreases parts.len(),
{
    if parts.len() == 0 {
        Seq::<char>::empty()
    } else if parts.len() == 1 {
        parts[0]
    } else {
        join_spec(parts.drop_last(), sep) + sep + parts.last()
    }
}

/// Joins strings with a separator.
pub fn join(parts: &Vec<String>, sep: &str) -> (r: String)
    ensures
        r@ == join_spec(views(parts@), sep@),
{
    let mut out = String::new();
    let n = parts.len();
    let mut i: usize = 0;
    assert(views(parts@).take(0) =~= Seq::<Seq<char>>::empty());
    while i < n
        invariant
            n == parts@.len(),
            i <= n,
            out@ == join_spec(views(parts@).take(i as int), sep@),
        decreases n - i,
    {
        assert(views(parts@).take(i + 1).drop_last() =~= views(parts@).take(i as int));
        assert(views(parts@).take(i + 1).last() == parts@[i as int]@);
        if i > 0 {
            push_str(&mut out, sep);
        } else {
            assert(out@ =~= Seq::<char>::empty());
        }
        push_str(&mut out, parts[i].as_str());
        proof {
            if i == 0 {
                assert(out@ =~= views(parts@).take(1)[0]);
            }
        }
        i = i + 1;
    }
    assert(views(parts@).take(n as int) =~= views(parts@));
    out
}

/// The character sequences of a list of string slices.
pub open spec fn str_views(v: Seq<&str>) -> Seq<Seq<char>> {
    v.map_values(|x: &str| x@)
}

/// Whether `s` is one of the strings in `list`.
pub fn contains_str(list: &[&str], s: &str) -> (r: bool)
    ensures
        r == str_views(list@).contains(s@),
{
    let n = list.len();
    let mut i: usize = 0;
    while i < n
        invariant
            n == list@.len(),
            i <= n,
            forall|k: int| 0 <= k < i ==> list@[k]@ != s@,
        decreases n - i,
    {
        if str_eq(list[i], s) {
            assert(str_views(list@)[i as int] == s@);
            return true;
        }
        i = i + 1;
    }
    assert forall|k: int| 0 <= k < str_views(list@).len() implies str_views(list@)[k] != s@ by {
        assert(str_views(list@)[k] == list@[k]@);
    }
    false
}

/// Whether `s` is one of the strings in `list`, for owned strings.
pub fn contains_string(list: &Vec<String>, s: &str) -> (r: bool)
    ensures
        r == views(list@).contains(s@),
{
    let n = list.len();
    let mut i: usize = 0;
    while i < n
        invariant
            n == list@.len(),
            i <= n,
            forall|k: int| 0 <= k < i ==> list@[k]@ != s@,
        decreases n - i,
    {
        if str_eq(list[i].as_str(), s) {
            assert(views(list@)[i as int] == s@);
            return true;
        }
        i = i + 1;
    }
    assert forall|k: int| 0 <= k < views(list@).len() implies views(list@)[k] != s@ by {
        assert(views(list@)[k] == list@[k]@);
    }
    false
}

/// Whether `s` begins with `prefix`.
pub fn starts_with(s: &str, prefix: &str) -> (r: bool)
    ensures
        r == (prefix@.len() <= s@.len() && s@.take(prefix@.len() as int) == prefix@),
{
    let n = s.unicode_len();
    let m = prefix.unicode_len();
    if m > n {
        return false;
    }
    let mut i: usize = 0;
    while i < m
        invariant
            n == s@.len(),
            m == prefix@.len(),
            m <= n,
            i <= m,
            forall|k: int| 0 <= k < i ==> s@[k] == prefix@[k],
        decreases m - i,
    {
        if s.get_char(i) != prefix.get_char(i) {
            assert(s@.take(m as int)[i as int] != prefix@[i as int]);
            return false;
        }
        i = i + 1;
    }
    assert(s@.take(m as int) =~= prefix@);
    true
}

} // verus!

verus! {

/// Joins string slices with a separator.
pub fn join_strs(parts: &[&str], sep: &str) -> (r: String)
    ensures
        r@ == join_spec(str_views(parts@), sep@),
{
    let mut out = String::new();
    let n = parts.len();
    let mut i: usize = 0;
    assert(str_views(parts@).take(0) =~= Seq::<Seq<char>>::empty());
    while i < n
        invariant
            n == parts@.len(),
            i <= n,
            out@ == join_spec(str_views(parts@).take(i as int), sep@),
        decreases n - i,
    {
        assert(str_views(parts@).take(i + 1).drop_last() =~= str_views(parts@).take(i as int));
        assert(str_views(parts@).take(i + 1).last() == parts@[i as int]@);
        if i > 0 {
            push_str(&mut out, sep);
        } else {
            assert(out@ =~= Seq::<char>::empty());
        }
        push_str(&mut out, parts[i]);
        proof {
            if i == 0 {
                assert(out@ =~= str_views(parts@).take(1)[0]);
            }
        }
        i = i + 1;
    }
    assert(str_views(parts@).take(n as int) =~= str_views(parts@));
    out
}

/// The text after the last occurrence of `c` in `s`, or all of `s` when
/// `c` does not occur (what `s.rsplit(c).next()` gives).
pub open spec fn after_last(s: Seq<char>, c: char) -> Seq<char>
    decreases s.len(),
{
    if s.len() == 0 {
        s
    } else if s.last() == c {
        Seq::<char>::empty()
    } else {
        after_last(s.drop_last(), c).push(s.last())
    }
}

proof fn lemma_after_last_skip(s: Seq<char>, c: char, j: int)
    requires
        0 <= j <= s.len(),
        forall|k: int| j <= k < s.len() ==> s[k] != c,
        j == 0 || s[j - 1] == c,
    ensures
        after_last(s, c) == s.skip(j),
    decreases s.len(),
{
    if s.len() == 0 {
        assert(s.skip(j) =~= s);
    } else if j == s.len() {
        assert(s.last() == c);
        assert(s.skip(j) =~= Seq::<char>::empty());
    } else {
        assert forall|k: int| j <= k < s.drop_last().len() implies s.drop_last()[k] != c by {
            assert(s.drop_last()[k] == s[k]);
        }
        if j > 0 {
            assert(s.drop_last()[j - 1] == s[j - 1]);
        }
        lemma_after_last_skip(s.drop_last(), c, j);
        assert(s.drop_last().skip(j).push(s.last()) =~= s.skip(j));
    }
}

/// The text after the last `c` in `s` (all of `s` when there is none).
pub fn text_after_last(s: &str, c: char) -> (r: String)
    ensures
        r@ == after_last(s@, c),
{
    let n = s.unicode_len();
    let mut j: usize = n;
    while j > 0 && s.get_char(j - 1) != c
        invariant
            n == s@.len(),
            j <= n,
            forall|k: int| j <= k < n ==> s@[k] != c,
        decreases j,
    {
        j = j - 1;
    }
    proof {
        lemma_after_last_skip(s@, c, j as int);
        assert(s@.skip(j as int) =~= s@.subrange(j as int, n as int));
    }
    s.substring_char(j, n).to_owned()
}

} // verus!

verus! {

proof fn lemma_decimal_digits_read_back(n: nat)
    ensures
        decimal_digits(n).len() > 0,
        all_digits(decimal_digits(n)),
        digits_value(decimal_digits(n)) == n,
        decimal_digits(n)[0] != '+' && decimal_digits(n)[0] != '-',
    decreases n,
{
    let d = decimal_digits(n);
    if n < 10 {
        assert(d.drop_last() =~= Seq::<char>::empty());
        assert(d.last() == digit_char_spec(n as int));
        assert((digit_char_spec(n as int) as int) - 48 == n);
        assert(digits_value(d) == digits_value(d.drop_last()) * 10 + ((d.last() as int) - 48) as nat);
        assert(digits_value(Seq::<char>::empty()) == 0);
    } else {
        lemma_decimal_digits_read_back(n / 10);
        let p = decimal_digits(n / 10);
        assert(d == p.push(digit_char_spec((n % 10) as int)));
        assert(d.drop_last() =~= p);
        assert((digit_char_spec((n % 10) as int) as int) - 48 == n % 10);
        assert(n / 10 * 10 + n % 10 == n) by (nonlinear_arith);
        assert(digits_value(d) == digits_value(d.drop_last()) * 10 + ((d.last() as int) - 48) as nat);
        assert(d.last() == digit_char_spec((n % 10) as int));
        assert forall|i: int| 0 <= i < d.len() implies is_digit(#[trigger] d[i]) by {
            if i < p.len() {
                assert(d[i] == p[i]);
            }
        }
        assert(d[0] == p[0]);
    }
}

/// Reading back a printed number gives the number: the decimal text of
/// any value up to `max` parses (with or without a leading '+') as that
/// value, the text of a larger value does not parse, and the text of any
/// `i64` (with its '-' when negative) parses as that `i64`.
pub proof fn lemma_decimal_round_trip(n: nat, max: int, i: i64)
    ensures
        n <= max ==> parse_unsigned(decimal_digits(n), max) == Some(n as int),
        n <= max ==> parse_unsigned(seq!['+'] + decimal_digits(n), max) == Some(n as int),
        n > max ==> parse_unsigned(decimal_digits(n), max) is None,
        parse_i64_spec(int_decimal(i as int)) == Some(i as int),
{
    lemma_decimal_digits_read_back(n);
    let d = decimal_digits(n);
    assert((seq!['+'] + d).drop_first() =~= d);
    if i < 0 {
        let m = (-(i as int)) as nat;
        lemma_decimal_digits_read_back(m);
        assert((seq!['-'] + decimal_digits(m)).drop_first() =~= decimal_digits(m));
    } else {
        lemma_decimal_digits_read_back(i as nat);
    }
}

} // verus!

verus! {

proof fn lemma_split_by_clean(s: Seq<char>, p: spec_fn(char) -> bool)
    ensures
        forall|i: int, j: int| 0 <= i < split_by(s, p).len() && 0 <= j < split_by(s, p)[i].len()
            ==> !p(#[trigger] split_by(s, p)[i][j]),
    decreases s.len(),
{
    if s.len() > 0 {
        lemma_split_by_clean(s.drop_last(), p);
        lemma_split_by_nonempty(s.drop_last(), p);
        let prev = split_by(s.drop_last(), p);
        let cur = split_by(s, p);
        if !p(s.last()) {
            assert forall|i: int, j: int| 0 <= i < cur.len() && 0 <= j < cur[i].len()
                implies !p(#[trigger] cur[i][j]) by {
                if i < prev.len() - 1 {
                    assert(cur[i] == prev[i]);
                } else {
                    assert(cur[i] == prev.last().push(s.last()));
                    if j < prev.last().len() {
                        assert(cur[i][j] == prev[prev.len() - 1][j]);
                    }
                }
            }
        } else {
            assert forall|i: int, j: int| 0 <= i < cur.len() && 0 <= j < cur[i].len()
                implies !p(#[trigger] cur[i][j]) by {
                if i < prev.len() {
                    assert(cur[i] == prev[i]);
                }
            }
        }
    }
}

proof fn lemma_join_extend_last(parts: Seq<Seq<char>>, sep: Seq<char>, x: char)
    requires
        parts.len() >= 1,
    ensures
        join_spec(parts.update(parts.len() - 1, parts.last().push(x)), sep) == join_spec(parts, sep).push(x),
{
    let q = parts.update(parts.len() - 1, parts.last().push(x));
    if parts.len() == 1 {
        assert(q[0] == parts[0].push(x));
    } else {
        assert(q.drop_last() =~= parts.drop_last());
        assert(q.last() == parts.last().push(x));
        assert(join_spec(q, sep) == join_spec(q.drop_last(), sep) + sep + q.last());
        assert(join_spec(parts.drop_last(), sep) + sep + parts.last().push(x)
            =~= (join_spec(parts.drop_last(), sep) + sep + parts.last()).push(x));
    }
}

proof fn lemma_split_by_rejoin(s: Seq<char>, p: spec_fn(char) -> bool, c: char)
    requires
        forall|x: char| #[trigger] p(x) <==> x == c,
    ensures
        join_spec(split_by(s, p), seq![c]) == s,
    decreases s.len(),
{
    if s.len() > 0 {
        lemma_split_by_rejoin(s.drop_last(), p, c);
        lemma_split_by_nonempty(s.drop_last(), p);
        let prev = split_by(s.drop_last(), p);
        if p(s.last()) {
            let cur = prev.push(Seq::<char>::empty());
            assert(cur.drop_last() =~= prev);
            assert(join_spec(cur, seq![c]) == join_spec(prev, seq![c]) + seq![c] + Seq::<char>::empty());
            assert(s.drop_last() + seq![c] + Seq::<char>::empty() =~= s);
        } else {
            lemma_join_extend_last(prev, seq![c], s.last());
            assert(s.drop_last().push(s.last()) =~= s);
        }
    }
}

/// Splitting on a character cuts the text into the pieces between its
/// occurrences: no piece contains the separator, and joining the pieces
/// with it gives the text back. (Split on ',' for the comma-separated
/// settings.)
pub proof fn lemma_comma_split(s: Seq<char>)
    ensures
        join_spec(split_by(s, split_pred(SplitKind::Comma)), seq![',']) == s,
        forall|i: int, j: int| 0 <= i < split_by(s, split_pred(SplitKind::Comma)).len()
            && 0 <= j < split_by(s, split_pred(SplitKind::Comma))[i].len()
            ==> #[trigger] split_by(s, split_pred(SplitKind::Comma))[i][j] != ',',
{
    let p = split_pred(SplitKind::Comma);
    assert forall|x: char| #[trigger] p(x) <==> x == ',' by {}
    lemma_split_by_rejoin(s, p, ',');
    lemma_split_by_clean(s, p);
}

/// The words of a text are non-empty and hold no white space, and every
/// word is one of the pieces between white-space characters.
pub proof fn lemma_words_shape(s: Seq<char>)
    ensures
        forall|i: int| 0 <= i < words(s).len() ==> (#[trigger] words(s)[i]).len() > 0,
        forall|i: int, j: int| 0 <= i < words(s).len() && 0 <= j < words(s)[i].len()
            ==> !unicode_whitespace(#[trigger] words(s)[i][j]),
        forall|i: int| 0 <= i < words(s).len()
            ==> split_by(s, trim_pred(TrimKind::Whitespace)).contains(#[trigger] words(s)[i]),
{
    let p = trim_pred(TrimKind::Whitespace);
    let f = split_by(s, p);
    lemma_split_by_clean(s, p);
    let nz = |w: Seq<char>| is_nonempty(w);
    assert forall|i: int| 0 <= i < words(s).len() implies (#[trigger] words(s)[i]).len() > 0
        && f.contains(words(s)[i]) by {
        f.lemma_filter_pred(nz, i);
        assert(f.filter(nz).contains(f.filter(nz)[i]));
        f.lemma_filter_contains_rev(nz, f.filter(nz)[i]);
    }
    assert forall|i: int, j: int| 0 <= i < words(s).len() && 0 <= j < words(s)[i].len()
        implies !unicode_whitespace(#[trigger] words(s)[i][j]) by {
        assert(f.contains(words(s)[i]));
        let k = choose|k: int| 0 <= k < f.len() && f[k] == words(s)[i];
        assert(!p(f[k][j]));
    }
}

} // verus!

verus! {

proof fn lemma_strip_front_shape(s: Seq<char>, p: spec_fn(char) -> bool)
    ensures
        exists|k: int| 0 <= k <= s.len() && strip_front(s, p) == s.skip(k),
        strip_front(s, p).len() > 0 ==> !p(strip_front(s, p)[0]),
    decreases s.len(),
{
    if s.len() > 0 && p(s[0]) {
        lemma_strip_front_shape(s.drop_first(), p);
        let k = choose|k: int| 0 <= k <= s.drop_first().len() && strip_front(s.drop_first(), p) == s.drop_first().skip(k);
        assert(s.drop_first().skip(k) =~= s.skip(k + 1));
    } else {
        assert(s.skip(0) =~= s);
    }
}

proof fn lemma_strip_back_shape(s: Seq<char>, p: spec_fn(char) -> bool)
    ensures
        exists|k: int| 0 <= k <= s.len() && strip_back(s, p) == s.take(k),
        strip_back(s, p).len() > 0 ==> !p(strip_back(s, p).last()),
    decreases s.len(),
{
    if s.len() > 0 && p(s.last()) {
        lemma_strip_back_shape(s.drop_last(), p);
        let k = choose|k: int| 0 <= k <= s.drop_last().len() && strip_back(s.drop_last(), p) == s.drop_last().take(k);
        assert(s.drop_last().take(k) =~= s.take(k));
    } else {
        assert(s.take(s.len() as int) =~= s);
    }
}

/// Trimming keeps a middle part of the text: the result is a run of
/// consecutive characters of it, and neither starts nor ends with a
/// character of the trimmed kind.
pub proof fn lemma_trim_shape(s: Seq<char>, k: TrimKind)
    ensures
        exists|a: int, b: int| 0 <= a <= b <= s.len() && trim_spec(s, k) == s.subrange(a, b),
        trim_spec(s, k).len() > 0 ==> !(trim_pred(k))(trim_spec(s, k)[0])
            && !(trim_pred(k))(trim_spec(s, k).last()),
{
    let p = trim_pred(k);
    let f = strip_front(s, p);
    lemma_strip_front_shape(s, p);
    lemma_strip_back_shape(f, p);
    let a = choose|a: int| 0 <= a <= s.len() && f == s.skip(a);
    let b = choose|b: int| 0 <= b <= f.len() && strip_back(f, p) == f.take(b);
    assert(f.take(b) =~= s.subrange(a, a + b));
    if trim_spec(s, k).len() > 0 {
        assert(trim_spec(s, k)[0] == f[0]);
    }
}

} // verus!
