//! Text as sequences of characters: searching, splitting, ordering and decimal numbers.
use vstd::prelude::*;
use vstd::string::*;

verus! {

/// `String::push`: the character is appended to the end of the string.
pub assume_specification[ String::push ](s: &mut String, c: char)
    ensures
        final(s)@ == old(s)@.push(c),
;

/// `c`, with an ASCII capital turned into its small letter.
pub open spec fn lower_char(c: char) -> char {
    if 'A' <= c <= 'Z' {
        ((c as int) + 32) as char
    } else {
        c
    }
}

/// `s` with every ASCII capital turned into its small letter.
pub open spec fn lowered(s: Seq<char>) -> Seq<char> {
    s.map_values(|c: char| lower_char(c))
}

/// `needle` stands in `hay` from position `at` on.
pub open spec fn occurs_at(hay: Seq<char>, needle: Seq<char>, at: int) -> bool {
    &&& 0 <= at
    &&& at + needle.len() <= hay.len()
    &&& hay.subrange(at, at + needle.len()) == needle
}

/// `needle` stands somewhere in `hay`.
pub open spec fn contains(hay: Seq<char>, needle: Seq<char>) -> bool {
    exists|at: int| #[trigger] occurs_at(hay, needle, at)
}

/// `at` is the first position of `needle` in `hay`.
pub open spec fn first_occurrence(hay: Seq<char>, needle: Seq<char>, at: int) -> bool {
    &&& occurs_at(hay, needle, at)
    &&& forall|i: int| i < at ==> !#[trigger] occurs_at(hay, needle, i)
}

/// What of `s` precedes the first `separator`: all of it where there is none.
pub open spec fn before_first(s: Seq<char>, separator: Seq<char>) -> Seq<char> {
    if contains(s, separator) {
        s.take(choose|at: int| first_occurrence(s, separator, at))
    } else {
        s
    }
}

/// What of `s` follows the first `separator`, if there is one.
pub open spec fn after_first(s: Seq<char>, separator: Seq<char>) -> Option<Seq<char>> {
    if contains(s, separator) {
        Some(s.skip((choose|at: int| first_occurrence(s, separator, at)) + separator.len()))
    } else {
        None
    }
}

/// The second of the pieces into which `separator` cuts `s`.
pub open spec fn second_piece(s: Seq<char>, separator: Seq<char>) -> Option<Seq<char>> {
    match after_first(s, separator) {
        Some(rest) => Some(before_first(rest, separator)),
        None => None,
    }
}

/// The characters of a string, in order.
pub fn chars_of(s: &str) -> (chars: Vec<char>)
    ensures
        chars@ == s@,
{
    let mut chars: Vec<char> = Vec::new();
    for c in it: s.chars()
        invariant
            chars@ == it.seq().take(it.index() as int),
            it.seq() == s@,
    {
        chars.push(c);
    }
    chars
}

/// The string made of some characters.
pub fn string_of(chars: &[char]) -> (s: String)
    ensures
        s@ == chars@,
{
    let mut s = String::new();
    let mut i: usize = 0;
    while i < chars.len()
        invariant
            i <= chars@.len(),
            s@ == chars@.take(i as int),
        decreases chars@.len() - i,
    {
        s.push(chars[i]);
        i += 1;
    }
    s
}

/// The characters of a string with ASCII capitals turned into small letters.
pub fn lowered_chars(s: &str) -> (chars: Vec<char>)
    ensures
        chars@ == lowered(s@),
{
    let source = chars_of(s);
    let mut chars: Vec<char> = Vec::new();
    let mut i: usize = 0;
    while i < source.len()
        invariant
            source@ == s@,
            i <= source@.len(),
            chars@ == lowered(s@).take(i as int),
        decreases source@.len() - i,
    {
        let c = source[i];
        if 'A' <= c && c <= 'Z' {
            chars.push((c as u8 + 32) as char);
        } else {
            chars.push(c);
        }
        assert(chars@[i as int] == lower_char(c));
        i += 1;
    }
    chars
}

/// Whether two strings hold the same characters.
pub fn same(a: &str, b: &str) -> (r: bool)
    ensures
        r == (a@ == b@),
{
    let a = chars_of(a);
    let b = chars_of(b);
    same_chars(&a, &b)
}

/// Whether a string holds no characters.
pub fn empty(s: &str) -> (r: bool)
    ensures
        r == (s@.len() == 0),
{
    chars_of(s).len() == 0
}

fn same_chars(a: &Vec<char>, b: &Vec<char>) -> (r: bool)
    ensures
        r == (a@ == b@),
{
    if a.len() != b.len() {
        return false;
    }
    let mut i: usize = 0;
    while i < a.len()
        invariant
            a@.len() == b@.len(),
            i <= a@.len(),
            a@.take(i as int) == b@.take(i as int),
        decreases a@.len() - i,
    {
        if a[i] != b[i] {
            return false;
        }
        assert(a@.take(i + 1) == a@.take(i as int).push(a@[i as int]));
        assert(b@.take(i + 1) == b@.take(i as int).push(b@[i as int]));
        i += 1;
    }
    assert(a@ == a@.take(i as int));
    assert(b@ == b@.take(i as int));
    true
}

fn stands_at(hay: &[char], needle: &[char], at: usize) -> (r: bool)
    requires
        at <= hay@.len(),
    ensures
        r == occurs_at(hay@, needle@, at as int),
{
    let length = hay.len();
    if length - at < needle.len() {
        return false;
    }
    let mut i: usize = 0;
    while i < needle.len()
        invariant
            length == hay@.len(),
            at + needle@.len() <= length,
            i <= needle@.len(),
            forall|k: int| 0 <= k < i ==> hay@[at + k] == needle@[k],
        decreases needle@.len() - i,
    {
        if hay[at + i] != needle[i] {
            assert(hay@.subrange(at as int, at + needle@.len())[i as int] != needle@[i as int]);
            return false;
        }
        i += 1;
    }
    assert(hay@.subrange(at as int, at + needle@.len()) == needle@);
    true
}

/// The first position of `needle` in `hay`.
pub fn find(hay: &[char], needle: &[char]) -> (r: Option<usize>)
    ensures
        match r {
            Some(at) => first_occurrence(hay@, needle@, at as int),
            None => !contains(hay@, needle@),
        },
{
    let mut at: usize = 0;
    while at < hay.len()
        invariant
            at <= hay@.len(),
            forall|i: int| i < at ==> !#[trigger] occurs_at(hay@, needle@, i),
        decreases hay@.len() - at,
    {
        if stands_at(hay, needle, at) {
            return Some(at);
        }
        at += 1;
    }
    if stands_at(hay, needle, at) {
        return Some(at);
    }
    None
}

/// Whether any of `needles` stands in `hay`.
pub fn contains_any(hay: &[char], needles: &[&str]) -> (r: bool)
    ensures
        r == exists|i: int| 0 <= i < needles@.len() && contains(hay@, #[trigger] needles@[i]@),
{
    let mut i: usize = 0;
    while i < needles.len()
        invariant
            i <= needles@.len(),
            forall|k: int| 0 <= k < i ==> !contains(hay@, #[trigger] needles@[k]@),
        decreases needles@.len() - i,
    {
        let needle = chars_of(needles[i]);
        if find(hay, needle.as_slice()).is_some() {
            assert(contains(hay@, needles@[i as int]@));
            return true;
        }
        i += 1;
    }
    false
}

/// Any of the signals stands in `s`, whatever the case of its ASCII letters.
pub open spec fn mentions(s: Seq<char>, signals: Seq<Seq<char>>) -> bool {
    exists|i: int| 0 <= i < signals.len() && contains(lowered(s), #[trigger] signals[i])
}

/// Whether any of the signals stands in a text whose letters were made small.
pub fn mentions_any(small: &Vec<char>, signals: &Vec<&str>) -> (r: bool)
    ensures
        forall|s: Seq<char>|
            small@ == lowered(s) ==> r == #[trigger] mentions(s, signals.deep_view()),
{
    let r = contains_any(small.as_slice(), signals.as_slice());
    assert forall|s: Seq<char>| small@ == lowered(s) implies r == #[trigger] mentions(
        s,
        signals.deep_view(),
    ) by {
        let seen = signals.deep_view();
        if r {
            let i = choose|i: int|
                0 <= i < signals@.len() && contains(small@, #[trigger] signals@[i]@);
            assert(seen[i] == signals@[i]@);
        } else {
            assert forall|i: int| 0 <= i < seen.len() implies !contains(
                small@,
                #[trigger] seen[i],
            ) by {
                assert(seen[i] == signals@[i]@);
            }
        }
    }
    r
}

proof fn lemma_first_occurrence_unique(s: Seq<char>, separator: Seq<char>, a: int, b: int)
    requires
        first_occurrence(s, separator, a),
        first_occurrence(s, separator, b),
    ensures
        a == b,
{
}

/// Cuts `s` at the first `separator`.
///
/// The text before it, and the text after it where there is one.
pub fn cut_at(s: &[char], separator: &str) -> (r: (Vec<char>, Option<Vec<char>>))
    ensures
        r.0@ == before_first(s@, separator@),
        match r.1 {
            Some(rest) => after_first(s@, separator@) == Some(rest@),
            None => after_first(s@, separator@) is None,
        },
{
    let needle = chars_of(separator);
    match find(s, needle.as_slice()) {
        Some(at) => {
            proof {
                assert(contains(s@, separator@));
                let chosen = choose|i: int| first_occurrence(s@, separator@, i);
                lemma_first_occurrence_unique(s@, separator@, at as int, chosen);
            }
            let total = s.len();
            assert(at + needle@.len() <= total);
            let before = copied(s, 0, at);
            let after = copied(s, at + needle.len(), total);
            assert(before@ == s@.take(at as int));
            assert(after@ == s@.skip(at + separator@.len()));
            (before, Some(after))
        },
        None => {
            let before = copied(s, 0, s.len());
            assert(before@ == s@);
            (before, None)
        },
    }
}

fn copied(s: &[char], from: usize, to: usize) -> (r: Vec<char>)
    requires
        from <= to <= s@.len(),
    ensures
        r@ == s@.subrange(from as int, to as int),
{
    let mut r: Vec<char> = Vec::new();
    let mut i: usize = from;
    while i < to
        invariant
            from <= i <= to <= s@.len(),
            r@ == s@.subrange(from as int, i as int),
        decreases to - i,
    {
        r.push(s[i]);
        i += 1;
    }
    r
}

/// The second of the pieces into which `separator` cuts `s`.
pub fn second_piece_of(s: &str, separator: &str) -> (r: Option<Vec<char>>)
    ensures
        match r {
            Some(piece) => second_piece(s@, separator@) == Some(piece@),
            None => second_piece(s@, separator@) is None,
        },
{
    let chars = chars_of(s);
    let (_, rest) = cut_at(chars.as_slice(), separator);
    match rest {
        Some(rest) => {
            let (piece, _) = cut_at(rest.as_slice(), separator);
            Some(piece)
        },
        None => None,
    }
}

/// The characters with Unicode's `White_Space` property.
pub open spec fn is_space(c: char) -> bool {
    ||| '\u{9}' <= c <= '\u{d}'
    ||| c == ' '
    ||| c == '\u{85}'
    ||| c == '\u{a0}'
    ||| c == '\u{1680}'
    ||| '\u{2000}' <= c <= '\u{200a}'
    ||| c == '\u{2028}'
    ||| c == '\u{2029}'
    ||| c == '\u{202f}'
    ||| c == '\u{205f}'
    ||| c == '\u{3000}'
}

fn space(c: char) -> (r: bool)
    ensures
        r == is_space(c),
{
    ('\u{9}' <= c && c <= '\u{d}') || c == ' ' || c == '\u{85}' || c == '\u{a0}'
        || c == '\u{1680}' || ('\u{2000}' <= c && c <= '\u{200a}') || c == '\u{2028}'
        || c == '\u{2029}' || c == '\u{202f}' || c == '\u{205f}' || c == '\u{3000}'
}

/// `s` holds nothing but white space.
pub open spec fn is_blank(s: Seq<char>) -> bool {
    forall|i: int| 0 <= i < s.len() ==> is_space(#[trigger] s[i])
}

/// Whether a text holds nothing but white space.
pub fn blank(s: &[char]) -> (r: bool)
    ensures
        r == is_blank(s@),
{
    let mut i: usize = 0;
    while i < s.len()
        invariant
            i <= s@.len(),
            forall|k: int| 0 <= k < i ==> is_space(#[trigger] s@[k]),
        decreases s@.len() - i,
    {
        if !space(s[i]) {
            return false;
        }
        i += 1;
    }
    true
}

/// How many characters of `s` stand before its first white space.
pub open spec fn word_length(s: Seq<char>) -> nat
    decreases s.len(),
{
    if s.len() == 0 || is_space(s[0]) {
        0
    } else {
        1 + word_length(s.skip(1))
    }
}

/// The pieces of `s` between white space, in order, none of them empty.
pub open spec fn words(s: Seq<char>) -> Seq<Seq<char>>
    decreases s.len(),
{
    if s.len() == 0 {
        Seq::empty()
    } else if is_space(s[0]) {
        words(s.skip(1))
    } else {
        let length = word_length(s) as int;
        if 0 < length <= s.len() {
            seq![s.take(length)] + words(s.skip(length))
        } else {
            Seq::empty()
        }
    }
}

proof fn lemma_word_length(s: Seq<char>)
    ensures
        word_length(s) <= s.len(),
        s.len() > 0 && !is_space(s[0]) ==> word_length(s) > 0,
    decreases s.len(),
{
    if s.len() > 0 && !is_space(s[0]) {
        lemma_word_length(s.skip(1));
    }
}

fn count_word(s: &[char], from: usize) -> (length: usize)
    requires
        from <= s@.len(),
    ensures
        length == word_length(s@.skip(from as int)),
        from + length <= s@.len(),
{
    let mut length: usize = 0;
    let total = s.len();
    assert(s@.skip(from as int).skip(0) == s@.skip(from as int));
    while from + length < total
        invariant
            total == s@.len(),
            from + length <= total,
            word_length(s@.skip(from as int)) == length + word_length(
                s@.skip(from as int).skip(length as int),
            ),
        ensures
            from + length <= total,
            word_length(s@.skip(from as int)) == length,
        decreases total - length,
    {
        let ghost rest = s@.skip(from as int).skip(length as int);
        assert(rest[0] == s@[from + length]);
        if space(s[from + length]) {
            break;
        }
        assert(rest.skip(1) == s@.skip(from as int).skip(length + 1));
        length += 1;
    }
    length
}

/// The pieces of a text between white space.
pub fn words_of(s: &str) -> (r: Vec<String>)
    ensures
        r.deep_view() == words(s@),
{
    let chars = chars_of(s);
    let mut r: Vec<String> = Vec::new();
    let mut i: usize = 0;
    assert(chars@.skip(0) == chars@);
    assert(r.deep_view() + words(chars@.skip(0)) == words(s@));
    while i < chars.len()
        invariant
            chars@ == s@,
            i <= chars@.len(),
            r.deep_view() + words(chars@.skip(i as int)) == words(s@),
        decreases chars@.len() - i,
    {
        let ghost rest = chars@.skip(i as int);
        assert(rest[0] == chars@[i as int]);
        if space(chars[i]) {
            assert(rest.skip(1) == chars@.skip(i + 1));
            i += 1;
        } else {
            let length = count_word(chars.as_slice(), i);
            proof {
                lemma_word_length(rest);
            }
            let word = copied(chars.as_slice(), i, i + length);
            assert(word@ == rest.take(length as int));
            assert(rest.skip(length as int) == chars@.skip(i + length));
            let ghost before = r.deep_view();
            r.push(string_of(word.as_slice()));
            assert(r.deep_view() == before.push(word@));
            assert(before + (seq![word@] + words(chars@.skip(i + length))) == before.push(word@)
                + words(chars@.skip(i + length)));
            i += length;
        }
    }
    assert(r.deep_view() + words(chars@.skip(i as int)) == r.deep_view());
    r
}

/// The digit for a number below sixteen, in small letters from ten on.
pub open spec fn digit(n: int) -> char {
    if n < 10 {
        (48 + n) as char
    } else {
        (87 + n) as char
    }
}

/// Different numbers have different digits.
pub proof fn digits_differ(a: int, b: int)
    requires
        0 <= a < 16,
        0 <= b < 16,
        digit(a) == digit(b),
    ensures
        a == b,
{
}

/// `n` in decimal, without leading zeros.
pub open spec fn decimal(n: nat) -> Seq<char>
    decreases n,
{
    if n < 10 {
        seq![digit(n as int)]
    } else {
        decimal(n / 10).push(digit((n % 10) as int))
    }
}

fn digit_char(n: u8) -> (c: char)
    requires
        n < 16,
    ensures
        c == digit(n as int),
{
    if n < 10 {
        (48 + n) as char
    } else {
        (87 + n) as char
    }
}

/// Writes `n` in decimal behind `out`.
pub fn push_decimal(out: &mut String, n: u64)
    ensures
        final(out)@ == old(out)@ + decimal(n as nat),
    decreases n,
{
    if n >= 10 {
        push_decimal(out, n / 10);
    }
    out.push(digit_char((n % 10) as u8));
}

/// `n` in decimal.
pub fn decimal_of(n: u64) -> (s: String)
    ensures
        s@ == decimal(n as nat),
{
    let mut s = String::new();
    push_decimal(&mut s, n);
    s
}

/// The two hexadecimal digits of each byte, in order.
pub open spec fn hexadecimal(bytes: Seq<u8>) -> Seq<char> {
    Seq::new(
        2 * bytes.len(),
        |i: int|
            if i % 2 == 0 {
                digit(bytes[i / 2] as int / 16)
            } else {
                digit(bytes[i / 2] as int % 16)
            },
    )
}

/// The bytes in hexadecimal, two digits each.
pub fn hexadecimal_of(bytes: &[u8]) -> (s: String)
    ensures
        s@ == hexadecimal(bytes@),
{
    let mut s = String::new();
    let mut i: usize = 0;
    while i < bytes.len()
        invariant
            i <= bytes@.len(),
            s@ == hexadecimal(bytes@).take(2 * i),
        decreases bytes@.len() - i,
    {
        let byte = bytes[i];
        let ghost before = s@;
        s.push(digit_char(byte / 16));
        s.push(digit_char(byte % 16));
        assert(hexadecimal(bytes@)[2 * i] == digit(byte as int / 16));
        assert(hexadecimal(bytes@)[2 * i + 1] == digit(byte as int % 16));
        assert(s@ == before.push(digit(byte as int / 16)).push(digit(byte as int % 16)));
        assert(s@ == hexadecimal(bytes@).take(2 * (i + 1)));
        i += 1;
    }
    assert(hexadecimal(bytes@).take(2 * bytes@.len() as int) == hexadecimal(bytes@));
    s
}

/// `s` is made of decimal digits alone.
pub open spec fn all_digits(s: Seq<char>) -> bool {
    forall|i: int| 0 <= i < s.len() ==> '0' <= #[trigger] s[i] <= '9'
}

/// The number that decimal digits stand for.
pub open spec fn digits_value(s: Seq<char>) -> nat
    decreases s.len(),
{
    if s.len() == 0 {
        0
    } else {
        10 * digits_value(s.drop_last()) + (s.last() as int - 48) as nat
    }
}

/// The 64-bit number written in `s`: digits, with or without a plus sign before them.
pub open spec fn parsed_number(s: Seq<char>) -> Option<u64> {
    let digits = if s.len() > 0 && s[0] == '+' {
        s.skip(1)
    } else {
        s
    };
    if digits.len() > 0 && all_digits(digits) && digits_value(digits) <= u64::MAX {
        Some(digits_value(digits) as u64)
    } else {
        None
    }
}

proof fn lemma_digits_value_grows(s: Seq<char>, n: int)
    requires
        0 <= n <= s.len(),
        all_digits(s),
    ensures
        digits_value(s.take(n)) <= digits_value(s),
    decreases s.len() - n,
{
    if n < s.len() {
        lemma_digits_value_grows(s, n + 1);
        assert(s.take(n + 1).drop_last() == s.take(n));
    } else {
        assert(s.take(n) == s);
    }
}

/// Reads a 64-bit number.
pub fn parse_number(s: &str) -> (r: Option<u64>)
    ensures
        r == parsed_number(s@),
{
    let chars = chars_of(s);
    let start: usize = if chars.len() > 0 && chars[0] == '+' {
        1
    } else {
        0
    };
    let ghost digits = chars@.skip(start as int);
    assert(start == 0 ==> digits == s@);
    if chars.len() == start {
        return None;
    }
    let mut value: u64 = 0;
    let mut i: usize = start;
    while i < chars.len()
        invariant
            start <= i <= chars@.len(),
            chars@ == s@,
            digits == chars@.skip(start as int),
            digits.len() > 0,
            parsed_number(s@) == (if digits.len() > 0 && all_digits(digits) && digits_value(digits)
                <= u64::MAX {
                Some(digits_value(digits) as u64)
            } else {
                None
            }),
            all_digits(digits.take(i - start)),
            value == digits_value(digits.take(i - start)),
        decreases chars@.len() - i,
    {
        let c = chars[i];
        assert(digits[i - start] == c);
        if c < '0' || c > '9' {
            return None;
        }
        let digit: u64 = (c as u8 - 48) as u64;
        let ghost next = digits.take(i - start + 1);
        assert(next.drop_last() == digits.take(i - start));
        assert(next.last() == c);
        assert(digits_value(next) == 10 * value + digit);
        assert forall|k: int| 0 <= k < next.len() implies '0' <= #[trigger] next[k] <= '9' by {
            if k < i - start {
                assert(next[k] == digits.take(i - start)[k]);
            }
        }
        proof {
            if all_digits(digits) {
                lemma_digits_value_grows(digits, i - start + 1);
            }
        }
        if value > (u64::MAX - digit) / 10 {
            return None;
        }
        value = 10 * value + digit;
        i += 1;
    }
    assert(digits.take(i - start) == digits);
    Some(value)
}

/// `a` comes before `b` in the order of Unicode code points, a prefix before what it begins.
pub open spec fn precedes(a: Seq<char>, b: Seq<char>) -> bool
    decreases a.len(),
{
    if b.len() == 0 {
        false
    } else if a.len() == 0 {
        true
    } else if a[0] != b[0] {
        a[0] < b[0]
    } else {
        precedes(a.skip(1), b.skip(1))
    }
}

/// No text comes before itself.
pub proof fn order_is_irreflexive(a: Seq<char>)
    ensures
        !precedes(a, a),
    decreases a.len(),
{
    if a.len() > 0 {
        order_is_irreflexive(a.skip(1));
    }
}

/// What comes before a text comes before all that the text comes before.
pub proof fn order_is_transitive(a: Seq<char>, b: Seq<char>, c: Seq<char>)
    requires
        precedes(a, b),
        precedes(b, c),
    ensures
        precedes(a, c),
    decreases a.len(),
{
    if a.len() > 0 && b.len() > 0 && c.len() > 0 && a[0] == b[0] && b[0] == c[0] {
        order_is_transitive(a.skip(1), b.skip(1), c.skip(1));
    }
}

/// Of two different texts one comes before the other.
pub proof fn order_is_total(a: Seq<char>, b: Seq<char>)
    ensures
        a == b || precedes(a, b) || precedes(b, a),
    decreases a.len(),
{
    if a.len() > 0 && b.len() > 0 && a[0] == b[0] {
        order_is_total(a.skip(1), b.skip(1));
        if a.skip(1) == b.skip(1) {
            assert(a == seq![a[0]] + a.skip(1));
            assert(b == seq![b[0]] + b.skip(1));
        }
    } else if a.len() == 0 && b.len() == 0 {
        assert(a == b);
    }
}

/// Whether `a` comes before `b`.
pub fn comes_before(a: &str, b: &str) -> (r: bool)
    ensures
        r == precedes(a@, b@),
{
    let left = chars_of(a);
    let right = chars_of(b);
    let mut i: usize = 0;
    assert(left@.skip(0) == left@);
    assert(right@.skip(0) == right@);
    while i < left.len() && i < right.len()
        invariant
            i <= left@.len(),
            i <= right@.len(),
            precedes(a@, b@) == precedes(left@.skip(i as int), right@.skip(i as int)),
        decreases left@.len() - i,
    {
        let ghost rest_a = left@.skip(i as int);
        let ghost rest_b = right@.skip(i as int);
        assert(rest_a[0] == left@[i as int]);
        assert(rest_b[0] == right@[i as int]);
        if left[i] != right[i] {
            return left[i] < right[i];
        }
        assert(rest_a.skip(1) == left@.skip(i + 1));
        assert(rest_b.skip(1) == right@.skip(i + 1));
        i += 1;
    }
    i < right.len()
}

/// A copy of a text that may be missing.
pub fn copy_optional(source: &Option<String>) -> (copy: Option<String>)
    ensures
        copy.deep_view() == source.deep_view(),
{
    match source {
        Some(content) => Some(content.clone()),
        None => None,
    }
}

/// A copy of a list of texts.
pub fn copy_list(source: &Vec<String>) -> (copy: Vec<String>)
    ensures
        copy.deep_view() == source.deep_view(),
{
    let mut copy: Vec<String> = Vec::new();
    let mut i: usize = 0;
    while i < source.len()
        invariant
            i <= source@.len(),
            copy.deep_view() == source.deep_view().take(i as int),
        decreases source@.len() - i,
    {
        let ghost before = copy.deep_view();
        copy.push(source[i].clone());
        assert(copy.deep_view() == before.push(source@[i as int]@));
        i += 1;
    }
    assert(source.deep_view().take(i as int) == source.deep_view());
    copy
}

/// Whether a list holds a text.
pub fn listed(list: &Vec<String>, wanted: &str) -> (r: bool)
    ensures
        r == list.deep_view().contains(wanted@),
{
    let mut i: usize = 0;
    while i < list.len()
        invariant
            i <= list@.len(),
            forall|k: int| 0 <= k < i ==> list.deep_view()[k] != wanted@,
        decreases list@.len() - i,
    {
        assert(list.deep_view()[i as int] == list@[i as int]@);
        if same(&list[i], wanted) {
            return true;
        }
        i += 1;
    }
    false
}

/// Two texts, one behind the other.
pub fn joined(a: &str, b: &str) -> (r: String)
    ensures
        r@ == a@ + b@,
{
    let mut r = a.to_owned();
    r.append(b);
    r
}

/// Three texts, one behind the other.
pub fn joined3(a: &str, b: &str, c: &str) -> (r: String)
    ensures
        r@ == a@ + b@ + c@,
{
    let mut r = a.to_owned();
    r.append(b);
    r.append(c);
    r
}

} // verus!
