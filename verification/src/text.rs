//! Small text utilities shared by the parsers and the status record.

use vstd::prelude::*;
use vstd::string::StringExecFns;

verus! {

/// `String::push` appends one character to the end of the string.
pub assume_specification[ std::string::String::push ](s: &mut std::string::String, c: char)
    ensures
        final(s)@ == old(s)@.push(c),
;

/// Whether two string slices hold the same characters.
pub fn str_eq(a: &str, b: &str) -> (r: bool)
    ensures
        r == (a@ == b@),
{
    let x = a.to_owned();
    let y = b.to_owned();
    x == y
}

/// The first `n` characters of `s`, or all of `s` where it is shorter.
pub open spec fn prefix(s: Seq<char>, n: nat) -> Seq<char> {
    if s.len() <= n {
        s
    } else {
        s.take(n as int)
    }
}

/// The characters of `s`, one by one.
pub fn chars_of(s: &str) -> (r: Vec<char>)
    ensures
        r@ == s@,
{
    let mut out: Vec<char> = Vec::new();
    for c in it: s.chars()
        invariant
            it.seq() == s@,
            out@ == s@.take(it.index() as int),
    {
        out.push(c);
    }
    assert(s@.take(s@.len() as int) == s@);
    out
}

/// The text made of the characters of `chars` from `from` up to `to`.
pub fn string_of(chars: &Vec<char>, from: usize, to: usize) -> (r: String)
    requires
        from <= to <= chars@.len(),
    ensures
        r@ == chars@.subrange(from as int, to as int),
{
    let mut out = String::new();
    let mut i: usize = from;
    while i < to
        invariant
            from <= i <= to,
            to <= chars@.len(),
            out@ == chars@.subrange(from as int, i as int),
        decreases to - i,
    {
        out.push(chars[i]);
        i = i + 1;
    }
    out
}

/// Copies the first `n` characters of `s`.
pub fn take_chars(s: &str, n: usize) -> (r: String)
    ensures
        r@ == prefix(s@, n as nat),
{
    let chars = chars_of(s);
    if chars.len() <= n {
        assert(chars@.subrange(0, chars@.len() as int) == chars@);
        string_of(&chars, 0, chars.len())
    } else {
        string_of(&chars, 0, n)
    }
}

/// The kinds of character that a text can be trimmed of.
#[derive(Copy, Clone, PartialEq, Eq, Structural, Debug)]
pub enum CharClass {
    /// The NUL character.
    Nul,
    /// White space, as Unicode lists it.
    Whitespace,
}

/// Whether `c` is white space: one of the characters with the Unicode
/// property `White_Space`.
pub open spec fn is_whitespace(c: char) -> bool {
    let n = c as u32;
    ||| 0x09 <= n <= 0x0D
    ||| n == 0x20
    ||| n == 0x85
    ||| n == 0xA0
    ||| n == 0x1680
    ||| 0x2000 <= n <= 0x200A
    ||| n == 0x2028
    ||| n == 0x2029
    ||| n == 0x202F
    ||| n == 0x205F
    ||| n == 0x3000
}

/// Whether `c` belongs to `class`.
pub open spec fn in_class(c: char, class: CharClass) -> bool {
    match class {
        CharClass::Nul => c == '\0',
        CharClass::Whitespace => is_whitespace(c),
    }
}

pub fn is_in_class(c: char, class: CharClass) -> (r: bool)
    ensures
        r == in_class(c, class),
{
    match class {
        CharClass::Nul => c == '\0',
        CharClass::Whitespace => {
            let n: u32 = c as u32;
            (0x09 <= n && n <= 0x0D) || n == 0x20 || n == 0x85 || n == 0xA0 || n == 0x1680 || (
            0x2000 <= n && n <= 0x200A) || n == 0x2028 || n == 0x2029 || n == 0x202F || n
                == 0x205F || n == 0x3000
        },
    }
}

/// `s` without the characters of `class` at its start.
pub open spec fn trim_start(s: Seq<char>, class: CharClass) -> Seq<char>
    decreases s.len(),
{
    if s.len() > 0 && in_class(s[0], class) {
        trim_start(s.drop_first(), class)
    } else {
        s
    }
}

/// `s` without the characters of `class` at its end.
pub open spec fn trim_end(s: Seq<char>, class: CharClass) -> Seq<char>
    decreases s.len(),
{
    if s.len() > 0 && in_class(s.last(), class) {
        trim_end(s.drop_last(), class)
    } else {
        s
    }
}

/// `s` without the characters of `class` at either end.
pub open spec fn trim(s: Seq<char>, class: CharClass) -> Seq<char> {
    trim_end(trim_start(s, class), class)
}

/// `s` without the NUL characters at either end.
pub open spec fn trim_nul(s: Seq<char>) -> Seq<char> {
    trim(s, CharClass::Nul)
}

proof fn lemma_trim_start(s: Seq<char>, class: CharClass, i: int)
    requires
        0 <= i <= s.len(),
        forall|k: int| 0 <= k < i ==> in_class(s[k], class),
        i == s.len() || !in_class(s[i], class),
    ensures
        trim_start(s, class) == s.subrange(i, s.len() as int),
    decreases i,
{
    if i == 0 {
        assert(s.subrange(0, s.len() as int) == s);
    } else {
        let t = s.drop_first();
        assert forall|k: int| 0 <= k < i - 1 implies in_class(t[k], class) by {
            assert(t[k] == s[k + 1]);
        }
        lemma_trim_start(t, class, i - 1);
        assert(t.subrange(i - 1, t.len() as int) == s.subrange(i, s.len() as int));
    }
}

proof fn lemma_trim_end(s: Seq<char>, class: CharClass, j: int)
    requires
        0 <= j <= s.len(),
        forall|k: int| j <= k < s.len() ==> in_class(s[k], class),
        j == 0 || !in_class(s[j - 1], class),
    ensures
        trim_end(s, class) == s.subrange(0, j),
    decreases s.len() - j,
{
    if j == s.len() {
        assert(s.subrange(0, j) == s);
    } else {
        let t = s.drop_last();
        lemma_trim_end(t, class, j);
        assert(t.subrange(0, j) == s.subrange(0, j));
    }
}

/// Copies `s` without the characters of `class` at either end.
pub fn trim_chars(s: &str, class: CharClass) -> (r: String)
    ensures
        r@ == trim(s@, class),
{
    let chars = chars_of(s);
    let len: usize = chars.len();
    let mut i: usize = 0;
    while i < len && is_in_class(chars[i], class)
        invariant
            len == chars@.len(),
            i <= len,
            forall|k: int| 0 <= k < i ==> in_class(chars@[k], class),
        decreases len - i,
    {
        i = i + 1;
    }
    let mut j: usize = len;
    while j > i && is_in_class(chars[j - 1], class)
        invariant
            len == chars@.len(),
            i <= j <= len,
            forall|k: int| j <= k < len ==> in_class(chars@[k], class),
        decreases j,
    {
        j = j - 1;
    }
    proof {
        lemma_trim_start(chars@, class, i as int);
        let t = chars@.subrange(i as int, len as int);
        assert forall|k: int| j - i <= k < t.len() implies in_class(t[k], class) by {
            assert(t[k] == chars@[k + i]);
        }
        lemma_trim_end(t, class, j - i);
        assert(t.subrange(0, j - i) == chars@.subrange(i as int, j as int));
    }
    string_of(&chars, i, j)
}

/// Copies `s` without the NUL characters at either end.
pub fn trim_nul_chars(s: &str) -> (r: String)
    ensures
        r@ == trim_nul(s@),
{
    trim_chars(s, CharClass::Nul)
}

/// The character for one digit, upper case above nine.
pub open spec fn digit_char(d: int) -> char {
    if d < 10 {
        ('0' as int + d) as char
    } else {
        ('A' as int + d - 10) as char
    }
}

/// The digits of `n` in the given base, most significant first, without
/// leading zeros; one `0` for zero.
pub open spec fn digits(n: nat, base: nat) -> Seq<char>
    decreases n,
{
    if n < base || base < 2 {
        seq![digit_char(n as int)]
    } else {
        proof {
            assert(n / base < n) by (nonlinear_arith)
                requires
                    base >= 2,
                    n >= base,
            ;
        }
        digits(n / base, base).push(digit_char((n % base) as int))
    }
}

/// `v` in decimal, with a minus sign where it is negative.
pub open spec fn dec_text(v: int) -> Seq<char> {
    if v < 0 {
        seq!['-'] + digits((-v) as nat, 10)
    } else {
        digits(v as nat, 10)
    }
}

/// `v` in upper-case hexadecimal, a negative value by its 64-bit two's
/// complement.
pub open spec fn hex_text(v: int) -> Seq<char> {
    if v < 0 {
        digits((v + 0x1_0000_0000_0000_0000) as nat, 16)
    } else {
        digits(v as nat, 16)
    }
}

/// The character for the digit `d`.
pub fn digit_of(d: u8) -> (c: char)
    requires
        d < 16,
    ensures
        c == digit_char(d as int),
{
    if d < 10 {
        (48u8 + d) as char
    } else {
        (55u8 + d) as char
    }
}

/// Appends the digits of `n` in base `base` to `out`.
pub fn push_digits(out: &mut String, n: u64, base: u64)
    requires
        2 <= base <= 16,
    ensures
        final(out)@ == old(out)@ + digits(n as nat, base as nat),
    decreases n,
{
    if n >= base {
        assert(n / base < n) by (nonlinear_arith)
            requires
                base >= 2,
                n >= base,
        ;
        push_digits(out, n / base, base);
        out.push(digit_of((n % base) as u8));
    } else {
        out.push(digit_of(n as u8));
    }
}

/// Appends `v` in decimal to `out`.
pub fn push_dec(out: &mut String, v: i64)
    ensures
        final(out)@ == old(out)@ + dec_text(v as int),
{
    if v < 0 {
        out.push('-');
        let m: u64 = if v == i64::MIN {
            0x8000_0000_0000_0000u64
        } else {
            (-v) as u64
        };
        push_digits(out, m, 10);
    } else {
        push_digits(out, v as u64, 10);
    }
}

/// Appends `v` in upper-case hexadecimal to `out`.
pub fn push_hex(out: &mut String, v: i64)
    ensures
        final(out)@ == old(out)@ + hex_text(v as int),
{
    if v < 0 {
        let low: u64 = (v - i64::MIN) as u64;
        push_digits(out, low + 0x8000_0000_0000_0000u64, 16);
    } else {
        push_digits(out, v as u64, 16);
    }
}

/// Whether `c` is one of the ten ASCII digits.
pub open spec fn is_digit(c: char) -> bool {
    '0' <= c && c <= '9'
}

/// Whether `s` holds ASCII digits only.
pub open spec fn all_digits(s: Seq<char>) -> bool {
    forall|i: int| 0 <= i < s.len() ==> is_digit(#[trigger] s[i])
}

/// The number that a sequence of decimal digits stands for.
pub open spec fn digits_value(s: Seq<char>) -> nat
    decreases s.len(),
{
    if s.len() == 0 {
        0
    } else {
        (digits_value(s.drop_last()) * 10 + (s.last() as int - '0' as int)) as nat
    }
}

/// The integer that `s` writes in decimal: an optional `+` or `-`, then one
/// digit or more and nothing else.
pub open spec fn parse_int(s: Seq<char>) -> Option<int> {
    let signed = s.len() > 0 && (s[0] == '-' || s[0] == '+');
    let body = if signed {
        s.drop_first()
    } else {
        s
    };
    if body.len() == 0 || !all_digits(body) {
        None
    } else if signed && s[0] == '-' {
        Some(-(digits_value(body) as int))
    } else {
        Some(digits_value(body) as int)
    }
}

/// The `i64` that `s` writes in decimal, `None` where it writes none or
/// one out of range.
pub open spec fn parse_i64_text(s: Seq<char>) -> Option<i64> {
    match parse_int(s) {
        Some(v) => if i64::MIN <= v <= i64::MAX {
            Some(v as i64)
        } else {
            None
        },
        None => None,
    }
}

proof fn lemma_digits_value_prefix(s: Seq<char>, k: int)
    requires
        all_digits(s),
        0 <= k <= s.len(),
    ensures
        digits_value(s.take(k)) <= digits_value(s),
    decreases s.len(),
{
    if k == s.len() {
        assert(s.take(k) == s);
    } else {
        let t = s.drop_last();
        assert(is_digit(s.last()));
        assert forall|i: int| 0 <= i < t.len() implies is_digit(#[trigger] t[i]) by {
            assert(t[i] == s[i]);
        }
        lemma_digits_value_prefix(t, k);
        assert(t.take(k) == s.take(k));
    }
}

/// Reads a decimal `i64` as `str::parse::<i64>` does: no blanks, no digit
/// separators, an optional sign.
#[verifier::loop_isolation(false)]
pub fn parse_i64(s: &str) -> (r: Option<i64>)
    ensures
        r == parse_i64_text(s@),
{
    let chars = chars_of(s);
    let len: usize = chars.len();
    if len == 0 {
        return None;
    }
    let first = chars[0];
    let negative = first == '-';
    let start: usize = if first == '-' || first == '+' {
        1
    } else {
        0
    };
    let ghost body = if start == 1 {
        s@.drop_first()
    } else {
        s@
    };
    if start == len {
        return None;
    }
    let limit: u64 = 0x8000_0000_0000_0000u64;
    let mut acc: u64 = 0;
    let mut i: usize = start;
    while i < len
        invariant
            len == s@.len(),
            start <= i <= len,
            start <= 1,
            body.len() == len - start,
            forall|k: int| 0 <= k < body.len() ==> body[k] == s@[k + start],
            all_digits(body.take(i - start)),
            acc == digits_value(body.take(i - start)),
            acc <= limit,
            limit == 0x8000_0000_0000_0000u64,
        decreases len - i,
    {
        let c = chars[i];
        if !(c >= '0' && c <= '9') {
            assert(!is_digit(body[i - start]));
            return None;
        }
        let d: u64 = (c as u8 - 48u8) as u64;
        let ghost next = body.take(i + 1 - start);
        proof {
            assert(next.drop_last() == body.take(i - start));
            assert(next.last() == c);
            assert forall|k: int| 0 <= k < next.len() implies is_digit(#[trigger] next[k]) by {
                if k < i - start {
                    assert(next[k] == body.take(i - start)[k]);
                }
            }
        }
        if acc > (limit - d) / 10 {
            proof {
                assert(digits_value(next) > limit);
                if all_digits(body) {
                    lemma_digits_value_prefix(body, i + 1 - start);
                }
            }
            return None;
        }
        acc = acc * 10 + d;
        i = i + 1;
    }
    assert(body.take(len - start) == body);
    if negative {
        if acc == limit {
            Some(i64::MIN)
        } else {
            Some(-(acc as i64))
        }
    } else if acc == limit {
        None
    } else {
        Some(acc as i64)
    }
}

/// Whether `s` ends with `suffix`.
pub open spec fn ends_with(s: Seq<char>, suffix: Seq<char>) -> bool {
    s.len() >= suffix.len() && s.subrange(s.len() - suffix.len(), s.len() as int) == suffix
}

/// Whether `pattern` stands in `chars` at the position `at`.
fn matches_at(chars: &Vec<char>, pattern: &Vec<char>, at: usize) -> (r: bool)
    requires
        at + pattern@.len() <= chars@.len(),
    ensures
        r == occurs_at(chars@, pattern@, at as int),
{
    let m: usize = pattern.len();
    let n: usize = chars.len();
    let mut k: usize = 0;
    while k < m
        invariant
            m == pattern@.len(),
            n == chars@.len(),
            k <= m,
            at + m <= n,
            forall|j: int| 0 <= j < k ==> chars@[at + j] == pattern@[j],
        decreases m - k,
    {
        if chars[at + k] != pattern[k] {
            assert(chars@.subrange(at as int, at + m)[k as int] != pattern@[k as int]);
            return false;
        }
        k = k + 1;
    }
    assert(chars@.subrange(at as int, at + m) =~= pattern@);
    true
}

pub fn str_ends_with(s: &str, suffix: &str) -> (r: bool)
    ensures
        r == ends_with(s@, suffix@),
{
    let chars = chars_of(s);
    let tail = chars_of(suffix);
    if chars.len() < tail.len() {
        return false;
    }
    matches_at(&chars, &tail, chars.len() - tail.len())
}

/// Whether `pattern` stands in `s` at the position `i`.
pub open spec fn occurs_at(s: Seq<char>, pattern: Seq<char>, i: int) -> bool {
    0 <= i && i + pattern.len() <= s.len() && s.subrange(i, i + pattern.len()) == pattern
}

/// The first position from `from` on at which `pattern` stands in `s`.
pub open spec fn find_from(s: Seq<char>, pattern: Seq<char>, from: int) -> Option<int>
    decreases s.len() - from + 1,
{
    if from < 0 || from + pattern.len() > s.len() {
        None
    } else if occurs_at(s, pattern, from) {
        Some(from)
    } else {
        find_from(s, pattern, from + 1)
    }
}

/// Whether `pattern` stands somewhere in `s`.
pub open spec fn contains(s: Seq<char>, pattern: Seq<char>) -> bool {
    find_from(s, pattern, 0) is Some
}

/// The first position from `from` on at which `pattern` stands in
/// `chars`.
fn find_in(chars: &Vec<char>, pattern: &Vec<char>, from: usize) -> (r: Option<usize>)
    requires
        from <= chars@.len(),
    ensures
        match r {
            Some(i) => find_from(chars@, pattern@, from as int) == Some(i as int) && from <= i
                && i + pattern@.len() <= chars@.len(),
            None => find_from(chars@, pattern@, from as int) is None,
        },
{
    let n: usize = chars.len();
    let m: usize = pattern.len();
    if m > n - from {
        return None;
    }
    let mut i: usize = from;
    loop
        invariant
            n == chars@.len(),
            m == pattern@.len(),
            from <= i <= n - m,
            find_from(chars@, pattern@, from as int) == find_from(chars@, pattern@, i as int),
        decreases n - m - i,
    {
        if matches_at(chars, pattern, i) {
            return Some(i);
        }
        if i == n - m {
            assert(find_from(chars@, pattern@, i + 1) is None);
            return None;
        }
        i = i + 1;
    }
}

/// The first position at which `pattern` stands in `s`.
pub fn str_find(s: &str, pattern: &str) -> (r: Option<usize>)
    ensures
        match r {
            Some(i) => find_from(s@, pattern@, 0) == Some(i as int),
            None => find_from(s@, pattern@, 0) is None,
        },
{
    find_in(&chars_of(s), &chars_of(pattern), 0)
}

pub fn str_contains(s: &str, pattern: &str) -> (r: bool)
    ensures
        r == contains(s@, pattern@),
{
    str_find(s, pattern).is_some()
}

/// The pieces of `s` between the places where `separator` stands, from
/// the left and without overlap: one piece more than there are such
/// places.
pub open spec fn split_on(s: Seq<char>, separator: Seq<char>) -> Seq<Seq<char>>
    decreases s.len(),
{
    match find_from(s, separator, 0) {
        Some(i) => if separator.len() > 0 && 0 <= i <= s.len() - separator.len() {
            seq![s.take(i)] + split_on(s.skip(i + separator.len()), separator)
        } else {
            seq![s]
        },
        None => seq![s],
    }
}

/// String views, one by one.
pub open spec fn views(pieces: Seq<String>) -> Seq<Seq<char>> {
    pieces.map_values(|p: String| p@)
}

/// A place that is found lies within the text.
pub proof fn lemma_find_in_range(s: Seq<char>, pattern: Seq<char>, from: int)
    requires
        0 <= from,
    ensures
        find_from(s, pattern, from) matches Some(i) ==> from <= i && i + pattern.len() <= s.len(),
    decreases s.len() - from + 1,
{
    if from + pattern.len() <= s.len() && !occurs_at(s, pattern, from) {
        lemma_find_in_range(s, pattern, from + 1);
    }
}

/// Searching from `from` on is searching in what follows `from`.
proof fn lemma_find_in_rest(s: Seq<char>, pattern: Seq<char>, from: int, at: int)
    requires
        0 <= from <= at,
        at <= s.len(),
    ensures
        find_from(s, pattern, at) == match find_from(s.skip(from), pattern, at - from) {
            Some(i) => Some(i + from),
            None => None,
        },
    decreases s.len() - at + 1,
{
    let rest = s.skip(from);
    if at + pattern.len() <= s.len() {
        assert(rest.subrange(at - from, at - from + pattern.len()) =~= s.subrange(
            at,
            at + pattern.len(),
        ));
        if at == s.len() {
            assert(s.subrange(at, at + pattern.len()) =~= pattern);
        } else if !occurs_at(s, pattern, at) {
            lemma_find_in_rest(s, pattern, from, at + 1);
        }
    }
}

/// Splits `s` at every place where `separator` stands.
pub fn str_split(s: &str, separator: &str) -> (r: Vec<String>)
    requires
        separator@.len() > 0,
    ensures
        views(r@) == split_on(s@, separator@),
{
    let chars = chars_of(s);
    let pattern = chars_of(separator);
    let m: usize = pattern.len();
    let n: usize = chars.len();
    let mut pieces: Vec<String> = Vec::new();
    let mut pos: usize = 0;
    proof {
        assert(s@.skip(0) =~= s@);
        assert(views(pieces@) + split_on(s@, separator@) =~= split_on(s@, separator@));
    }
    loop
        invariant
            chars@ == s@,
            pattern@ == separator@,
            n == s@.len(),
            m == separator@.len(),
            m > 0,
            pos <= n,
            split_on(s@, separator@) == views(pieces@) + split_on(s@.skip(pos as int), separator@),
        decreases n - pos,
    {
        let ghost rest = s@.skip(pos as int);
        let ghost before = views(pieces@);
        proof {
            lemma_find_in_rest(s@, separator@, pos as int, pos as int);
        }
        match find_in(&chars, &pattern, pos) {
            Some(i) => {
                pieces.push(string_of(&chars, pos, i));
                proof {
                    assert(rest.take(i - pos) =~= s@.subrange(pos as int, i as int));
                    assert(views(pieces@) =~= before + seq![rest.take(i - pos)]);
                    assert(rest.skip(i - pos + m) =~= s@.skip(i + m));
                }
                pos = i + m;
            },
            None => {
                pieces.push(string_of(&chars, pos, n));
                proof {
                    assert(rest =~= s@.subrange(pos as int, n as int));
                    assert(views(pieces@) =~= before + seq![rest]);
                }
                return pieces;
            },
        }
    }
}

} // verus!
