//! What holds of searching, cutting and reading texts.
use crate::json;
use crate::json::Json;
use crate::text;
use vstd::prelude::*;
use vstd::string::*;

verus! {

/// Making letters small changes the capitals of ASCII and nothing else.
pub proof fn lowering_changes_capitals(s: &str, chars: Vec<char>, i: int)
    requires
        call_ensures(text::lowered_chars, (s,), chars),
        0 <= i < s@.len(),
    ensures
        chars@.len() == s@.len(),
        'A' <= s@[i] <= 'Z' ==> chars@[i] as int == s@[i] as int + 32,
        !('A' <= s@[i] <= 'Z') ==> chars@[i] == s@[i],
        chars@ == text::lowered(s@),
{
}

/// A text holds another one just if it is made of that one with something before and after it.
pub proof fn texts_hold_their_pieces(s: Seq<char>, piece: Seq<char>)
    ensures
        text::contains(s, piece) <==> exists|before: Seq<char>, after: Seq<char>|
            s == #[trigger] (before + piece + after),
{
    if text::contains(s, piece) {
        let at = choose|at: int| #[trigger] text::occurs_at(s, piece, at);
        let before = s.take(at);
        let after = s.skip(at + piece.len());
        assert forall|i: int| 0 <= i < s.len() implies s[i] == (before + piece + after)[i] by {
            if at <= i < at + piece.len() {
                assert(s.subrange(at, at + piece.len())[i - at] == s[i]);
            }
        }
        assert(s =~= before + piece + after);
    }
    if exists|before: Seq<char>, after: Seq<char>| s == #[trigger] (before + piece + after) {
        let (before, after) = choose|before: Seq<char>, after: Seq<char>|
            s == #[trigger] (before + piece + after);
        let at = before.len() as int;
        assert(s.subrange(at, at + piece.len()) =~= piece);
        assert(text::occurs_at(s, piece, at));
    }
}

pub(crate) proof fn lemma_cut(before: Seq<char>, separator: Seq<char>, after: Seq<char>)
    requires
        forall|i: int|
            0 <= i < before.len() ==> !text::occurs_at(before + separator + after, separator, i),
    ensures
        text::before_first(before + separator + after, separator) == before,
        text::after_first(before + separator + after, separator) == Some(after),
{
    let s = before + separator + after;
    let at = before.len() as int;
    assert(s.subrange(at, at + separator.len()) =~= separator);
    assert(text::occurs_at(s, separator, at));
    assert(text::first_occurrence(s, separator, at));
    let found = choose|found: int| text::first_occurrence(s, separator, found);
    assert(text::first_occurrence(s, separator, found));
    assert(found == at) by {
        if found < at {
            assert(text::occurs_at(s, separator, found));
        } else if at < found {
            assert(!text::occurs_at(s, separator, at));
        }
    }
    assert(s.take(at) =~= before);
    assert(s.skip(at + separator.len()) =~= after);
}

/// Of a text that a separator cuts, the second piece is what stands between the first separator
/// and the next.
pub proof fn second_piece_stands_between_separators(
    s: &str,
    separator: &str,
    r: Option<Vec<char>>,
    first: Seq<char>,
    second: Seq<char>,
    rest: Seq<char>,
)
    requires
        call_ensures(text::second_piece_of, (s, separator), r),
        s@ == first + separator@ + (second + separator@ + rest),
        forall|i: int| 0 <= i < first.len() ==> !text::occurs_at(s@, separator@, i),
        forall|i: int|
            0 <= i < second.len() ==> !text::occurs_at(
                second + separator@ + rest,
                separator@,
                i,
            ),
    ensures
        r matches Some(piece) && piece@ == second,
{
    lemma_cut(first, separator@, second + separator@ + rest);
    lemma_cut(second, separator@, rest);
}

/// A text without the separator has no second piece.
pub proof fn uncut_text_has_no_second_piece(s: &str, separator: &str, r: Option<Vec<char>>)
    requires
        call_ensures(text::second_piece_of, (s, separator), r),
        !text::contains(s@, separator@),
    ensures
        r is None,
{
}

proof fn lemma_decimal_digits(n: nat)
    ensures
        text::decimal(n).len() > 0,
        n > 0 ==> text::decimal(n)[0] != '0',
        n == 0 ==> text::decimal(n) == seq!['0'],
        text::all_digits(text::decimal(n)),
        text::digits_value(text::decimal(n)) == n,
    decreases n,
{
    let s = text::decimal(n);
    if n >= 10 {
        lemma_decimal_digits(n / 10);
        assert(s.drop_last() =~= text::decimal(n / 10));
        assert(s.last() == text::digit((n % 10) as int));
        assert forall|i: int| 0 <= i < s.len() implies '0' <= #[trigger] s[i] <= '9' by {
            if i < s.len() - 1 {
                assert(s[i] == text::decimal(n / 10)[i]);
            }
        }
    } else {
        assert(s =~= seq![text::digit(n as int)]);
        assert(s.drop_last() =~= Seq::<char>::empty());
        assert(text::digits_value(s.drop_last()) == 0);
    }
}

pub(crate) proof fn lemma_decimal_parses(n: u64)
    ensures
        text::parsed_number(text::decimal(n as nat)) == Some(n),
{
    lemma_decimal_digits(n as nat);
    let s = text::decimal(n as nat);
    assert('0' <= s[0] <= '9');
}

/// A number that is written in decimal is read as that number.
pub proof fn written_numbers_are_read(n: u64, written: String, s: &str, read: Option<u64>)
    requires
        call_ensures(text::decimal_of, (n,), written),
        call_ensures(text::parse_number, (s,), read),
        s@ == written@,
    ensures
        read == Some(n),
        n > 0 ==> written@[0] != '0',
        n == 0 ==> written@ == seq!['0'],
{
    lemma_decimal_digits(n as nat);
    lemma_decimal_parses(n);
}

/// A text with any character but a digit, and an empty one, is no number; a plus sign may come
/// first.
pub proof fn other_texts_are_no_numbers(s: &str, read: Option<u64>, i: int)
    requires
        call_ensures(text::parse_number, (s,), read),
    ensures
        s@.len() == 0 ==> read is None,
        0 <= i < s@.len() && !('0' <= s@[i] <= '9') && (i > 0 || s@[i] != '+') ==> read is None,
{
    if 0 <= i < s@.len() && !('0' <= s@[i] <= '9') && (i > 0 || s@[i] != '+') {
        if s@[0] == '+' {
            assert(s@.skip(1)[i - 1] == s@[i]);
        } else {
            assert(s@[i] == s@[i]);
        }
    }
}

/// Words hold no white space and are not empty.
pub proof fn words_hold_no_space(s: Seq<char>, n: int, i: int)
    requires
        0 <= n < text::words(s).len(),
        0 <= i < text::words(s)[n].len(),
    ensures
        !text::is_space(text::words(s)[n][i]),
    decreases s.len(),
{
    if s.len() > 0 {
        if text::is_space(s[0]) {
            words_hold_no_space(s.skip(1), n, i);
        } else {
            let length = text::word_length(s) as int;
            lemma_word(s);
            if n > 0 {
                words_hold_no_space(s.skip(length), n - 1, i);
            } else {
                assert(text::words(s)[0] == s.take(length));
            }
        }
    }
}

proof fn lemma_word(s: Seq<char>)
    ensures
        text::word_length(s) <= s.len(),
        forall|i: int| 0 <= i < text::word_length(s) ==> !text::is_space(#[trigger] s[i]),
        text::word_length(s) < s.len() ==> text::is_space(s[text::word_length(s) as int]),
        s.len() > 0 && !text::is_space(s[0]) ==> text::word_length(s) > 0,
    decreases s.len(),
{
    if s.len() > 0 && !text::is_space(s[0]) {
        let rest = s.skip(1);
        lemma_word(rest);
        assert forall|i: int| 0 <= i < text::word_length(s) implies !text::is_space(
            #[trigger] s[i],
        ) by {
            if i > 0 {
                assert(rest[i - 1] == s[i]);
            }
        }
        if text::word_length(s) < s.len() {
            assert(rest[text::word_length(rest) as int] == s[text::word_length(s) as int]);
        }
    }
}

proof fn lemma_word_length_is(s: Seq<char>, n: int)
    requires
        0 <= n <= s.len(),
        forall|i: int| 0 <= i < n ==> !text::is_space(#[trigger] s[i]),
        n < s.len() ==> text::is_space(s[n]),
    ensures
        text::word_length(s) == n,
    decreases n,
{
    if n > 0 {
        assert(!text::is_space(s[0]));
        let rest = s.skip(1);
        assert forall|i: int| 0 <= i < n - 1 implies !text::is_space(#[trigger] rest[i]) by {
            assert(rest[i] == s[i + 1]);
        }
        lemma_word_length_is(rest, n - 1);
    }
}

/// White space, and nothing else, separates words: a text without any is one word, and the words
/// of two texts with a space between them are those of the one and then those of the other.
pub proof fn spaces_separate_words(a: Seq<char>, space: char, b: Seq<char>)
    requires
        text::is_space(space),
    ensures
        text::words(a.push(space) + b) == text::words(a) + text::words(b),
        a.len() > 0 && (forall|i: int| 0 <= i < a.len() ==> !text::is_space(#[trigger] a[i]))
            ==> text::words(a) == seq![a],
    decreases a.len(),
{
    let s = a.push(space) + b;
    if a.len() == 0 {
        assert(s.skip(1) =~= b);
        assert(text::words(a) + text::words(b) =~= text::words(b));
    } else if text::is_space(a[0]) {
        assert(s.skip(1) =~= a.skip(1).push(space) + b);
        spaces_separate_words(a.skip(1), space, b);
    } else {
        lemma_word(a);
        let length = text::word_length(a) as int;
        assert forall|i: int| 0 <= i < length implies !text::is_space(#[trigger] s[i]) by {
            assert(s[i] == a[i]);
        }
        if length < a.len() {
            assert(s[length] == a[length]);
        } else {
            assert(s[length] == space);
        }
        lemma_word_length_is(s, length);
        assert(s.take(length) =~= a.take(length));
        if length < a.len() {
            assert(s.skip(length) =~= a.skip(length).push(space) + b);
        } else {
            assert(s.skip(length) =~= Seq::<char>::empty().push(space) + b);
            assert(a.skip(length) =~= Seq::<char>::empty());
        }
        spaces_separate_words(a.skip(length), space, b);
        assert(text::words(s) =~= seq![a.take(length)] + (text::words(a.skip(length)) + text::words(
            b,
        )));
        assert(text::words(a) =~= seq![a.take(length)] + text::words(a.skip(length)));
        assert(text::words(s) =~= text::words(a) + text::words(b));
        if forall|i: int| 0 <= i < a.len() ==> !text::is_space(#[trigger] a[i]) {
            lemma_word_length_is(a, a.len() as int);
            assert(a.take(length) =~= a);
            assert(a.skip(length) =~= Seq::<char>::empty());
            assert(text::words(a) =~= seq![a]);
        }
    }
}

/// The words of a text are found.
pub proof fn words_are_found(s: &str, r: Vec<String>)
    requires
        call_ensures(text::words_of, (s,), r),
    ensures
        r.deep_view() == text::words(s@),
{
}

/// White space is what Unicode counts as such: by code, the tab and the line breaks of ASCII, the
/// blank, the next line, and the blanks of other widths and scripts.
pub proof fn white_space_is_that_of_unicode(c: char)
    ensures
        text::is_space(c) <==> {
            let code = c as int;
            ||| 9 <= code <= 13
            ||| code == 32
            ||| code == 133
            ||| code == 160
            ||| code == 5760
            ||| 8192 <= code <= 8202
            ||| code == 8232
            ||| code == 8233
            ||| code == 8239
            ||| code == 8287
            ||| code == 12288
        },
{
}

/// A text is blank just if all its characters are white space.
pub proof fn blank_texts_hold_white_space(s: &[char], r: bool)
    requires
        call_ensures(text::blank, (s,), r),
    ensures
        r <==> forall|i: int| 0 <= i < s@.len() ==> text::is_space(#[trigger] s@[i]),
{
}

/// Texts are ordered by the first character in which they differ, and a text comes before all
/// that only go on after it.
pub proof fn first_difference_orders_texts(
    same: Seq<char>,
    a: char,
    rest: Seq<char>,
    b: char,
    other: Seq<char>,
)
    requires
        a < b,
    ensures
        text::precedes(same + seq![a] + rest, same + seq![b] + other),
        text::precedes(same, same + seq![a] + rest),
    decreases same.len(),
{
    let x = same + seq![a] + rest;
    let y = same + seq![b] + other;
    if same.len() > 0 {
        let less = same.skip(1);
        first_difference_orders_texts(less, a, rest, b, other);
        assert(x.skip(1) =~= less + seq![a] + rest);
        assert(y.skip(1) =~= less + seq![b] + other);
        assert(x[0] == same[0] && y[0] == same[0]);
    } else {
        assert(x[0] == a && y[0] == b);
    }
}

/// The value under a name is that of the first member with the name.
pub proof fn members_are_found(
    value: &Json,
    key: &str,
    r: Option<&Json>,
    members: Vec<(String, Json)>,
    i: int,
)
    requires
        call_ensures(Json::get, (value, key), r),
    ensures
        *value == Json::Object(members) && 0 <= i < members@.len() && members@[i].0@ == key@ && (
        forall|k: int| 0 <= k < i ==> (#[trigger] members@[k]).0@ != key@) ==> (r matches Some(found)
            && *found == members@[i].1),
        *value == Json::Object(members) && (forall|k: int|
            0 <= k < members@.len() ==> (#[trigger] members@[k]).0@ != key@) ==> r is None,
        !(value is Object) ==> r is None,
{
    if *value == Json::Object(members) {
        if 0 <= i < members@.len() && members@[i].0@ == key@ && (forall|k: int|
            0 <= k < i ==> (#[trigger] members@[k]).0@ != key@) {
            lemma_lookup(members@, key@, i);
        }
        if forall|k: int| 0 <= k < members@.len() ==> (#[trigger] members@[k]).0@ != key@ {
            lemma_lookup(members@, key@, members@.len() as int);
        }
    }
}

proof fn lemma_lookup(members: Seq<(String, Json)>, key: Seq<char>, i: int)
    requires
        0 <= i <= members.len(),
        forall|k: int| 0 <= k < i ==> (#[trigger] members[k]).0@ != key,
        i < members.len() ==> members[i].0@ == key,
    ensures
        json::lookup(members, key) == (if i < members.len() {
            Some(members[i].1)
        } else {
            None
        }),
    decreases i,
{
    if i > 0 {
        assert(members[0].0@ != key);
        let rest = members.skip(1);
        assert forall|k: int| 0 <= k < i - 1 implies (#[trigger] rest[k]).0@ != key by {
            assert(rest[k] == members[k + 1]);
        }
        lemma_lookup(rest, key, i - 1);
    }
}

/// A text value is its text, a number its number, and an array begins with its first item; no other
/// value is any of these.
pub proof fn values_are_what_they_hold(
    value: &Json,
    content: Option<&str>,
    number: Option<u64>,
    head: Option<&Json>,
)
    requires
        call_ensures(Json::as_str, (value,), content),
        call_ensures(Json::as_u64, (value,), number),
        call_ensures(Json::first, (value,), head),
    ensures
        *value matches Json::Text(held) ==> (content matches Some(found) && found@ == held@),
        !(value is Text) ==> content is None,
        *value matches Json::Number(held, _) ==> number == held,
        !(value is Number) ==> number is None,
        *value matches Json::Array(items) ==> (if items@.len() > 0 {
            head matches Some(found) && *found == items@[0]
        } else {
            head is None
        }),
        !(value is Array) ==> head is None,
{
}

/// The texts are the same just if their characters are, and a text is listed just if it is one of
/// the list.
pub proof fn texts_are_compared(
    a: &str,
    b: &str,
    same: bool,
    list: &Vec<String>,
    listed: bool,
    joined: String,
)
    requires
        call_ensures(text::same, (a, b), same),
        call_ensures(text::listed, (list, b), listed),
        call_ensures(text::joined, (a, b), joined),
    ensures
        same <==> a@ == b@,
        listed <==> exists|i: int| 0 <= i < list@.len() && (#[trigger] list@[i])@ == b@,
        joined@ == a@ + b@,
{
    let all = list.deep_view();
    assert(all.len() == list@.len());
    if listed {
        let i = all.index_of(b@);
        assert(all[i] == list@[i]@);
    }
    if exists|i: int| 0 <= i < list@.len() && (#[trigger] list@[i])@ == b@ {
        let i = choose|i: int| 0 <= i < list@.len() && (#[trigger] list@[i])@ == b@;
        assert(all[i] == b@);
    }
}

/// Bytes are written as two hexadecimal digits each, the larger one first.
pub proof fn bytes_are_written_in_digits(bytes: &[u8], s: String, i: int)
    requires
        call_ensures(text::hexadecimal_of, (bytes,), s),
        0 <= i < bytes@.len(),
    ensures
        s@.len() == 2 * bytes@.len(),
        ({
            let high = s@[2 * i] as int;
            let low = s@[2 * i + 1] as int;
            let first = if high < 58 {
                high - 48
            } else {
                high - 87
            };
            let second = if low < 58 {
                low - 48
            } else {
                low - 87
            };
            16 * first + second == bytes@[i]
        }),
{
    let byte = bytes@[i] as int;
    assert(byte == 16 * (byte / 16) + byte % 16);
    assert((2 * i) / 2 == i && (2 * i + 1) / 2 == i && (2 * i) % 2 == 0 && (2 * i + 1) % 2 == 1);
}

} // verus!
