//! Taking strings apart at the byte level, with contracts at the level of
//! characters.

use vstd::prelude::*;
use vstd::string::*;
use vstd::utf8::*;

verus! {

/// The encoding of two texts in a row is that of the first followed by that of
/// the second.
pub proof fn lemma_encode_concat(a: Seq<char>, b: Seq<char>)
    ensures
        encode_utf8(a + b) == encode_utf8(a) + encode_utf8(b),
    decreases a.len(),
{
    if a.len() == 0 {
        assert(a + b =~= b);
        assert(encode_utf8(a) + encode_utf8(b) =~= encode_utf8(b));
    } else {
        lemma_encode_concat(a.drop_first(), b);
        assert((a + b).drop_first() =~= a.drop_first() + b);
        assert(encode_utf8(a + b) =~= encode_utf8(a) + encode_utf8(b));
    }
}

/// Texts with the same encoding are the same.
pub proof fn lemma_encode_injective(a: Seq<char>, b: Seq<char>)
    requires
        encode_utf8(a) == encode_utf8(b),
    ensures
        a == b,
{
    encode_utf8_decode_utf8(a);
    encode_utf8_decode_utf8(b);
}

/// Where the encoding of a text is that of `head` followed by that of `tail`, the
/// text is `head` followed by `tail`.
pub proof fn lemma_split_encoding(text: Seq<char>, head: Seq<char>, tail: Seq<char>)
    requires
        encode_utf8(text) == encode_utf8(head) + encode_utf8(tail),
    ensures
        text == head + tail,
{
    lemma_encode_concat(head, tail);
    lemma_encode_injective(text, head + tail);
}

/// An ASCII character is encoded as the one byte of its code.
proof fn lemma_ascii_scalar(code: u32)
    requires
        code < 0x80,
    ensures
        encode_scalar(code) == seq![code as u8],
{
    assert(leading_byte_width_1(code) == code as u8) by (bit_vector)
        requires
            code < 0x80,
    ;
}

/// A text starts with an ASCII character exactly where its encoding starts with
/// the code of that character.
pub proof fn lemma_first_ascii(text: Seq<char>, c: char)
    requires
        text.len() > 0,
        c < '\u{80}',
    ensures
        encode_utf8(text).len() > 0,
        text[0] == c <==> encode_utf8(text)[0] == c as u8,
        text[0] == c ==> encode_utf8(text) == seq![c as u8] + encode_utf8(text.drop_first()),
{
    let bytes = encode_utf8(text);
    encode_utf8_first_scalar(text);
    lemma_ascii_scalar(c as u32);
    if bytes[0] == c as u8 {
        let b: u8 = bytes[0];
        assert(codepoint_width_1(b) == b as u32) by (bit_vector)
            requires
                b < 0x80,
        ;
        assert(text[0] as u32 == c as u32);
        char_u32_cast(text[0], c as u32);
        char_u32_cast(c, c as u32);
    }
}

/// The character at position `at` of a text, if it is an ASCII character, stands
/// in the encoding behind that of the text before it.
pub proof fn lemma_ascii_in_encoding(text: Seq<char>, at: int)
    requires
        0 <= at < text.len(),
        text[at] < '\u{80}',
    ensures
        encode_utf8(text.take(at)).len() < encode_utf8(text).len(),
        encode_utf8(text)[encode_utf8(text.take(at)).len() as int] == text[at] as u8,
{
    let head = text.take(at);
    let tail = text.skip(at);
    assert(text =~= head + tail);
    lemma_encode_concat(head, tail);
    lemma_first_ascii(tail, text[at]);
}

/// An ASCII byte in the encoding of a text starts a character.
pub proof fn lemma_ascii_boundary(bytes: Seq<u8>, at: int)
    requires
        valid_utf8(bytes),
        0 <= at < bytes.len(),
        bytes[at] < 0x80,
    ensures
        is_char_boundary(bytes, at),
{
    is_char_boundary_iff_not_is_continuation_byte(bytes, at);
}

/// An encoding that starts with another one can be cut behind it.
pub proof fn lemma_prefix_boundary(bytes: Seq<u8>, at: int)
    requires
        valid_utf8(bytes),
        0 <= at <= bytes.len(),
        valid_utf8(bytes.take(at)),
    ensures
        is_char_boundary(bytes, at),
{
    if at == bytes.len() {
        is_char_boundary_start_end_of_seq(bytes);
    } else {
        let rest = bytes.subrange(at, bytes.len() as int);
        assert(bytes.take(at) =~= bytes.subrange(0, at));
        if !valid_utf8(rest) {
            partial_valid_partial_invalid_utf8(bytes, at);
        }
        assert(valid_first_scalar(rest));
        assert(rest[0] == bytes[at]);
        is_char_boundary_iff_not_is_continuation_byte(bytes, at);
    }
}

/// An ASCII byte in the encoding of a text is the code of a character of it.
pub proof fn lemma_ascii_byte_is_char(text: Seq<char>, at: int, c: char)
    requires
        0 <= at < encode_utf8(text).len(),
        c < '\u{80}',
        encode_utf8(text)[at] == c as u8,
    ensures
        text.contains(c),
{
    let bytes = encode_utf8(text);
    encode_utf8_valid_utf8(text);
    encode_utf8_decode_utf8(text);
    lemma_ascii_boundary(bytes, at);
    valid_utf8_split(bytes, at);
    decode_utf8_split(bytes, at);
    let tail_bytes = bytes.subrange(at, bytes.len() as int);
    let head = decode_utf8(bytes.subrange(0, at));
    let tail = decode_utf8(tail_bytes);
    decode_utf8_encode_utf8(tail_bytes);
    assert(tail.len() > 0);
    lemma_first_ascii(tail, c);
    assert(text[head.len() as int] == c);
}

/// What stands in a sequence before the first `stop`, or all of it if it holds
/// none.
pub open spec fn before_first<T>(s: Seq<T>, stop: T) -> Seq<T>
    decreases s.len(),
{
    if s.len() == 0 || s[0] == stop {
        Seq::empty()
    } else {
        seq![s[0]] + before_first(s.drop_first(), stop)
    }
}

/// Up to an item at which a sequence ends or holds `stop` for the first time, it is
/// what stands before the first `stop`.
pub proof fn lemma_before_first<T>(s: Seq<T>, stop: T, n: int)
    requires
        0 <= n <= s.len(),
        forall|i: int| 0 <= i < n ==> s[i] != stop,
        n < s.len() ==> s[n] == stop,
    ensures
        before_first(s, stop) == s.take(n),
    decreases n,
{
    if n == 0 {
        assert(s.take(n) =~= Seq::<T>::empty());
    } else {
        let rest = s.drop_first();
        assert forall|i: int| 0 <= i < n - 1 implies rest[i] != stop by {
            assert(s[i + 1] != stop);
        }
        lemma_before_first(rest, stop, n - 1);
        assert(s[0] != stop);
        assert(seq![s[0]] + rest.take(n - 1) =~= s.take(n));
    }
}

/// What stands before the first `stop` holds none, and is followed by one unless it
/// is the whole sequence.
pub proof fn lemma_before_first_cuts<T>(s: Seq<T>, stop: T)
    ensures
        before_first(s, stop).is_prefix_of(s),
        !before_first(s, stop).contains(stop),
        before_first(s, stop).len() < s.len() ==> s[before_first(s, stop).len() as int] == stop,
    decreases s.len(),
{
    if s.len() == 0 || s[0] == stop {
    } else {
        let rest = s.drop_first();
        lemma_before_first_cuts(rest, stop);
        let head = before_first(rest, stop);
        let whole = before_first(s, stop);
        assert(whole =~= seq![s[0]] + head);
        assert(rest.take(head.len() as int) =~= head);
        assert(s.take(whole.len() as int) =~= whole) by {
            assert forall|i: int| 0 <= i < whole.len() implies s[i] == whole[i] by {
                if i > 0 {
                    assert(rest[i - 1] == head[i - 1]);
                }
            }
        }
        assert forall|i: int| 0 <= i < whole.len() implies whole[i] != stop by {
            if i > 0 {
                assert(head.contains(head[i - 1]));
            }
        }
    }
}

/// Where the first `c` of a text stands, `c` being an ASCII character, or nothing
/// if it holds none: the index is that of a byte.
fn find_ascii(text: &str, c: u8) -> (found: Option<usize>)
    requires
        c < 0x80,
    ensures
        match found {
            Some(at) => {
                &&& at < text.spec_bytes().len()
                &&& text.spec_bytes()[at as int] == c
                &&& forall|i: int| 0 <= i < at ==> text.spec_bytes()[i] != c
            },
            None => !text.spec_bytes().contains(c),
        },
{
    let bytes = text.as_bytes();
    let mut at: usize = 0;
    while at < bytes.len()
        invariant
            at <= bytes.len(),
            bytes@ == text.spec_bytes(),
            forall|i: int| 0 <= i < at ==> bytes@[i] != c,
        decreases bytes.len() - at,
    {
        if bytes[at] == c {
            return Some(at);
        }
        at = at + 1;
    }
    None
}

/// The text behind `prefix`, or nothing if `text` does not start with it.
pub fn strip_prefix<'a>(text: &'a str, prefix: &str) -> (rest: Option<&'a str>)
    ensures
        match rest {
            Some(rest) => text@ == prefix@ + rest@,
            None => !prefix@.is_prefix_of(text@),
        },
{
    let bytes = text.as_bytes();
    let start = prefix.as_bytes();
    let ghost behind = text@.skip(prefix@.len() as int);
    proof {
        // A text that starts with the prefix has an encoding that starts with its encoding.
        if prefix@.is_prefix_of(text@) {
            assert(text@ =~= prefix@ + behind);
            lemma_encode_concat(prefix@, behind);
        }
    }
    if bytes.len() < start.len() {
        return None;
    }
    let mut i: usize = 0;
    while i < start.len()
        invariant
            i <= start.len() <= bytes.len(),
            bytes@ == text.spec_bytes(),
            start@ == prefix.spec_bytes(),
            prefix@.is_prefix_of(text@) ==> text.spec_bytes() == prefix.spec_bytes() + encode_utf8(
                behind,
            ),
            forall|k: int| 0 <= k < i ==> bytes@[k] == start@[k],
        decreases start.len() - i,
    {
        if bytes[i] != start[i] {
            return None;
        }
        i = i + 1;
    }
    proof {
        encode_utf8_valid_utf8(text@);
        encode_utf8_valid_utf8(prefix@);
        assert(bytes@.take(start@.len() as int) =~= start@);
        lemma_prefix_boundary(bytes@, start@.len() as int);
    }
    let (head, rest) = text.split_at(start.len());
    proof {
        assert(head.spec_bytes() =~= prefix.spec_bytes());
        lemma_encode_injective(head@, prefix@);
        assert(text.spec_bytes() =~= head.spec_bytes() + rest.spec_bytes());
        lemma_split_encoding(text@, head@, rest@);
    }
    Some(rest)
}

/// The text before the first `separator`, an ASCII character, and the text behind
/// it, or nothing if `text` holds none.
pub fn split_once<'a>(text: &'a str, separator: char) -> (parts: Option<(&'a str, &'a str)>)
    requires
        separator < '\u{80}',
    ensures
        match parts {
            Some((before, after)) => {
                &&& text@ == before@ + seq![separator] + after@
                &&& !before@.contains(separator)
            },
            None => !text@.contains(separator),
        },
{
    let code: u8 = separator as u8;
    let found = find_ascii(text, code);
    match found {
        None => {
            proof {
                if text@.contains(separator) {
                    let at = text@.index_of(separator);
                    lemma_ascii_in_encoding(text@, at);
                }
            }
            None
        },
        Some(at) => {
            let ghost bytes = text.spec_bytes();
            proof {
                encode_utf8_valid_utf8(text@);
                lemma_ascii_boundary(bytes, at as int);
            }
            let (before, tail) = text.split_at(at);
            proof {
                assert(bytes =~= before.spec_bytes() + tail.spec_bytes());
                lemma_split_encoding(text@, before@, tail@);
                if before@.contains(separator) {
                    let k = before@.index_of(separator);
                    lemma_ascii_in_encoding(before@, k);
                    let b = encode_utf8(before@.take(k)).len() as int;
                    assert(before.spec_bytes()[b] == bytes[b]);
                }
                assert(tail.spec_bytes()[0] == bytes[at as int]);
                assert(tail@.len() > 0);
                lemma_first_ascii(tail@, separator);
                encode_utf8_valid_utf8(tail@);
                assert(tail.spec_bytes().take(1) =~= encode_utf8(seq![separator])) by {
                    lemma_encode_concat(seq![separator], tail@.drop_first());
                    assert(seq![separator] + tail@.drop_first() =~= tail@);
                    lemma_first_ascii(seq![separator], separator);
                    assert(seq![separator].drop_first() =~= Seq::<char>::empty());
                }
                encode_utf8_valid_utf8(seq![separator]);
                lemma_prefix_boundary(tail.spec_bytes(), 1);
            }
            let (_, after) = tail.split_at(1);
            proof {
                assert(after.spec_bytes() =~= encode_utf8(tail@.drop_first()));
                lemma_encode_injective(after@, tail@.drop_first());
                assert(text@ =~= before@ + seq![separator] + after@);
            }
            Some((before, after))
        },
    }
}

/// Whether a character is a decimal digit.
pub open spec fn is_digit(c: char) -> bool {
    '0' <= c <= '9'
}

/// Whether a text is made of decimal digits, one at least.
pub open spec fn is_digits(text: Seq<char>) -> bool {
    &&& text.len() > 0
    &&& forall|i: int| 0 <= i < text.len() ==> is_digit(#[trigger] text[i])
}

/// The number that decimal digits stand for.
pub open spec fn digits_value(digits: Seq<char>) -> nat
    decreases digits.len(),
{
    if digits.len() == 0 {
        0
    } else {
        10 * digits_value(digits.drop_last()) + (digits.last() as nat - '0' as nat) as nat
    }
}

/// A text without its sign, if it starts with one.
pub open spec fn unsigned_part(text: Seq<char>) -> Seq<char> {
    if text.len() > 0 && (text[0] == '-' || text[0] == '+') {
        text.skip(1)
    } else {
        text
    }
}

/// Whether a text is a decimal number: digits, with or without one sign before
/// them, and nothing else.
pub open spec fn is_decimal(text: Seq<char>) -> bool {
    is_digits(unsigned_part(text))
}

/// The number that a decimal number stands for.
pub open spec fn decimal_value(text: Seq<char>) -> int
    recommends
        is_decimal(text),
{
    if text[0] == '-' {
        -(digits_value(unsigned_part(text)) as int)
    } else {
        digits_value(unsigned_part(text)) as int
    }
}

/// Whether a text is a decimal number that an `i32` can hold.
pub open spec fn is_i32(text: Seq<char>) -> bool {
    is_decimal(text) && i32::MIN <= decimal_value(text) <= i32::MAX
}

/// The decimal digits of a number, without leading zeros.
pub open spec fn decimal_text(n: nat) -> Seq<char>
    decreases n,
{
    let last = ('0' as nat + n % 10) as char;
    if n < 10 {
        seq![last]
    } else {
        decimal_text(n / 10).push(last)
    }
}

/// The decimal digits of a number are a decimal number that stands for it.
pub proof fn lemma_decimal_text(n: nat)
    ensures
        is_digits(decimal_text(n)),
        digits_value(decimal_text(n)) == n,
        is_decimal(decimal_text(n)),
        decimal_value(decimal_text(n)) == n,
    decreases n,
{
    let digits = decimal_text(n);
    let last = ('0' as nat + n % 10) as char;
    assert(is_digit(last));
    if n < 10 {
        assert(digits.drop_last() =~= Seq::<char>::empty());
        assert(digits_value(digits.drop_last()) == 0);
    } else {
        lemma_decimal_text(n / 10);
        assert(digits.drop_last() =~= decimal_text(n / 10));
    }
    assert(is_digit(digits[0]));
}

/// More digits never stand for a smaller number.
proof fn lemma_digits_value_grows(digits: Seq<char>, n: int)
    requires
        is_digits(digits),
        0 <= n <= digits.len(),
    ensures
        digits_value(digits.take(n)) <= digits_value(digits),
    decreases digits.len() - n,
{
    if n == digits.len() {
        assert(digits.take(n) =~= digits);
    } else {
        lemma_digits_value_grows(digits, n + 1);
        assert(digits.take(n + 1).drop_last() =~= digits.take(n));
    }
}

/// The number that the bytes from `from` on stand for as decimal digits, or nothing
/// if they are no digits or stand for a number above `bound`.
/// `text` is what the bytes stand for, one ASCII character each.
fn parse_digits(
    bytes: &[u8],
    from: usize,
    bound: u64,
    Ghost(text): Ghost<Seq<char>>,
) -> (value: Option<u64>)
    requires
        from <= bytes.len(),
        bound <= 0xffff_ffff,
        bytes.len() == text.len(),
        forall|i: int| 0 <= i < text.len() ==> #[trigger] bytes@[i] == text[i] as int,
    ensures
        match value {
            Some(value) => {
                &&& is_digits(text.skip(from as int))
                &&& value == digits_value(text.skip(from as int))
                &&& value <= bound
            },
            None => is_digits(text.skip(from as int)) ==> digits_value(text.skip(from as int))
                > bound,
        },
{
    let ghost digits = text.skip(from as int);
    if from == bytes.len() {
        return None;
    }
    let mut value: u64 = 0;
    let mut i: usize = from;
    while i < bytes.len()
        invariant
            from <= i <= bytes.len(),
            bound <= 0xffff_ffff,
            bytes.len() == text.len(),
            digits == text.skip(from as int),
            forall|k: int| 0 <= k < text.len() ==> #[trigger] bytes@[k] == text[k] as int,
            forall|k: int| 0 <= k < i - from ==> is_digit(#[trigger] digits[k]),
            value == digits_value(digits.take(i - from)),
            value <= bound,
        decreases bytes.len() - i,
    {
        let b = bytes[i];
        proof {
            assert(digits[i - from] == text[i as int]);
            assert(b == text[i as int] as int);
        }
        if b < '0' as u8 || b > '9' as u8 {
            return None;
        }
        value = 10 * value + (b - '0' as u8) as u64;
        proof {
            assert(digits.take(i - from + 1).drop_last() =~= digits.take(i - from));
            assert(digits.take(i - from + 1).last() == digits[i - from]);
        }
        i = i + 1;
        if value > bound {
            proof {
                if is_digits(digits) {
                    lemma_digits_value_grows(digits, i - from);
                }
            }
            return None;
        }
    }
    proof {
        assert(digits.take(i - from) =~= digits);
    }
    Some(value)
}

/// The number that `text` stands for, or nothing if it is no decimal number or
/// one that an `i32` cannot hold.
pub fn parse_i32(text: &str) -> (number: Option<i32>)
    ensures
        match number {
            Some(number) => is_i32(text@) && number == decimal_value(text@),
            None => !is_i32(text@),
        },
{
    if !text.is_ascii() {
        proof {
            if is_decimal(text@) {
                assert forall|i: int| 0 <= i < text@.len() implies '\0' <= #[trigger] text@[i]
                    <= '\u{7f}' by {
                    let digits = unsigned_part(text@);
                    if digits.len() == text@.len() {
                        assert(is_digit(digits[i]));
                    } else if i > 0 {
                        assert(is_digit(digits[i - 1]));
                    }
                }
            }
        }
        return None;
    }
    let bytes = text.as_bytes();
    proof {
        is_ascii_chars_encode_utf8(text@);
        assert forall|i: int| 0 <= i < text@.len() implies #[trigger] bytes@[i]
            == text@[i] as int by {
            assert(text@[i] <= '\u{7f}');
        }
        assert(text@.skip(0) =~= text@);
    }
    if bytes.len() == 0 {
        return None;
    }
    if bytes[0] == '-' as u8 {
        match parse_digits(bytes, 1, 0x8000_0000, Ghost(text@)) {
            Some(value) => Some((-(value as i64)) as i32),
            None => None,
        }
    } else {
        let from: usize = if bytes[0] == '+' as u8 {
            1
        } else {
            0
        };
        match parse_digits(bytes, from, 0x7fff_ffff, Ghost(text@)) {
            Some(value) => Some(value as i32),
            None => None,
        }
    }
}

} // verus!
