//! Decimal and hexadecimal text, and the UTF-16 form that native controls take.
use vstd::prelude::*;
use vstd::string::*;

verus! {

/// The character of a decimal or hexadecimal digit, upper case.
pub open spec fn digit_char(digit: int) -> char {
    if digit == 0 {
        '0'
    } else if digit == 1 {
        '1'
    } else if digit == 2 {
        '2'
    } else if digit == 3 {
        '3'
    } else if digit == 4 {
        '4'
    } else if digit == 5 {
        '5'
    } else if digit == 6 {
        '6'
    } else if digit == 7 {
        '7'
    } else if digit == 8 {
        '8'
    } else if digit == 9 {
        '9'
    } else if digit == 10 {
        'A'
    } else if digit == 11 {
        'B'
    } else if digit == 12 {
        'C'
    } else if digit == 13 {
        'D'
    } else if digit == 14 {
        'E'
    } else {
        'F'
    }
}

/// Decimal digits of a natural number, without leading zeros.
pub open spec fn natural_text(value: nat) -> Seq<char>
    decreases value,
{
    if value < 10 {
        seq![digit_char(value as int)]
    } else {
        natural_text(value / 10).push(digit_char((value % 10) as int))
    }
}

/// Decimal text of an integer, with a minus sign where it is negative.
pub open spec fn decimal_text(value: int) -> Seq<char> {
    if value < 0 {
        seq!['-'] + natural_text((-value) as nat)
    } else {
        natural_text(value as nat)
    }
}

/// Two upper-case hexadecimal digits.
pub open spec fn hex_byte_text(value: u8) -> Seq<char> {
    seq![digit_char(value as int / 16), digit_char(value as int % 16)]
}

/// The UTF-16 code units of one character.
pub open spec fn utf16_units(c: char) -> Seq<u16> {
    let value = c as int;
    if value < 0x10000 {
        seq![value as u16]
    } else {
        seq![
            (0xd800 + (value - 0x10000) / 0x400) as u16,
            (0xdc00 + (value - 0x10000) % 0x400) as u16,
        ]
    }
}

/// The UTF-16 code units of a text.
pub open spec fn utf16(text: Seq<char>) -> Seq<u16>
    decreases text.len(),
{
    if text.len() == 0 {
        Seq::empty()
    } else {
        utf16(text.drop_last()) + utf16_units(text.last())
    }
}

fn digit_str(digit: u32) -> (r: &'static str)
    requires
        digit < 16,
    ensures
        r@ == seq![digit_char(digit as int)],
{
    proof {
        reveal_strlit("0");
        reveal_strlit("1");
        reveal_strlit("2");
        reveal_strlit("3");
        reveal_strlit("4");
        reveal_strlit("5");
        reveal_strlit("6");
        reveal_strlit("7");
        reveal_strlit("8");
        reveal_strlit("9");
        reveal_strlit("A");
        reveal_strlit("B");
        reveal_strlit("C");
        reveal_strlit("D");
        reveal_strlit("E");
        reveal_strlit("F");
    }
    match digit {
        0 => "0",
        1 => "1",
        2 => "2",
        3 => "3",
        4 => "4",
        5 => "5",
        6 => "6",
        7 => "7",
        8 => "8",
        9 => "9",
        10 => "A",
        11 => "B",
        12 => "C",
        13 => "D",
        14 => "E",
        _ => "F",
    }
}

/// Appends a natural number in decimal.
pub fn push_natural(text: &mut String, value: u32)
    ensures
        final(text)@ == old(text)@ + natural_text(value as nat),
    decreases value,
{
    if value < 10 {
        text.append(digit_str(value));
    } else {
        push_natural(text, value / 10);
        text.append(digit_str(value % 10));
        assert(text@ =~= old(text)@ + natural_text(value as nat));
    }
}

/// Appends an integer in decimal.
pub fn push_decimal(text: &mut String, value: i32)
    ensures
        final(text)@ == old(text)@ + decimal_text(value as int),
{
    if value < 0 {
        proof {
            reveal_strlit("-");
        }
        text.append("-");
        assert("-"@ =~= seq!['-']);
        let magnitude: u32 = (-(value as i64)) as u32;
        push_natural(text, magnitude);
        assert(text@ =~= old(text)@ + decimal_text(value as int));
    } else {
        push_natural(text, value as u32);
    }
}

/// Appends a byte as two upper-case hexadecimal digits.
pub fn push_hex_byte(text: &mut String, value: u8)
    ensures
        final(text)@ == old(text)@ + hex_byte_text(value),
{
    text.append(digit_str(value as u32 / 16));
    text.append(digit_str(value as u32 % 16));
    assert(text@ =~= old(text)@ + hex_byte_text(value));
}

/// The UTF-16 form of a text, without a terminator.
pub fn wide(text: &str) -> (r: Vec<u16>)
    ensures
        r@ == utf16(text@),
{
    let mut units: Vec<u16> = Vec::new();
    let len: usize = text.unicode_len();
    let mut i: usize = 0;
    while i < len
        invariant
            len == text@.len(),
            i <= len,
            units@ == utf16(text@.take(i as int)),
        decreases len - i,
    {
        let value: u32 = text.get_char(i) as u32;
        if value < 0x10000 {
            units.push(value as u16);
        } else {
            units.push((0xd800 + (value - 0x10000) / 0x400) as u16);
            units.push((0xdc00 + (value - 0x10000) % 0x400) as u16);
        }
        proof {
            let shorter = text@.take(i as int);
            let longer = text@.take(i + 1);
            assert(longer.drop_last() =~= shorter);
            assert(longer.last() == text@[i as int]);
            assert(units@ =~= utf16(shorter) + utf16_units(text@[i as int]));
        }
        i = i + 1;
    }
    assert(text@.take(len as int) =~= text@);
    units
}

/// The UTF-16 form of a text with the zero that ends it.
pub fn wide_terminated(text: &str) -> (r: Vec<u16>)
    ensures
        r@ == utf16(text@).push(0),
{
    let mut units = wide(text);
    units.push(0);
    units
}

/// Whether a character is one of the ten decimal digits.
pub open spec fn is_decimal_digit(c: char) -> bool {
    '0' as int <= c as int <= '9' as int
}

/// Whether a text is made of decimal digits alone.
pub open spec fn all_digits(text: Seq<char>) -> bool {
    forall|i: int| 0 <= i < text.len() ==> is_decimal_digit(#[trigger] text[i])
}

/// The number that decimal digits read as.
pub open spec fn decimal_value(text: Seq<char>) -> int
    decreases text.len(),
{
    if text.len() == 0 {
        0
    } else {
        decimal_value(text.drop_last()) * 10 + (text.last() as int - '0' as int)
    }
}

/// Whether a text is how a natural number is usually written: digits that read as
/// the number, without a zero in front of others.
pub open spec fn writes(text: Seq<char>, value: int) -> bool {
    &&& text.len() > 0
    &&& all_digits(text)
    &&& decimal_value(text) == value
    &&& text.len() > 1 ==> text[0] != '0'
}

/// Whether a text is how an integer is usually written: its digits, after a minus
/// sign where it is negative.
pub open spec fn writes_signed(text: Seq<char>, value: int) -> bool {
    if value >= 0 {
        writes(text, value)
    } else {
        text.len() > 1 && text[0] == '-' && writes(text.skip(1), -value)
    }
}

/// The number that a hexadecimal digit stands for.
pub open spec fn hex_value(c: char) -> int {
    if is_decimal_digit(c) {
        c as int - '0' as int
    } else {
        c as int - 'A' as int + 10
    }
}

/// Whether a character is a decimal digit or one of the letters A to F.
pub open spec fn is_hex_digit(c: char) -> bool {
    is_decimal_digit(c) || 'A' as int <= c as int <= 'F' as int
}

/// Natural numbers are written in the usual way: what is written reads as the
/// number.
pub proof fn natural_texts_read_back(value: nat)
    ensures
        writes(natural_text(value), value as int),
    decreases value,
{
    let text = natural_text(value);
    if value < 10 {
        assert(text.drop_last() =~= Seq::<char>::empty());
        assert(decimal_value(text.drop_last()) == 0);
    } else {
        natural_texts_read_back(value / 10);
        let shorter = natural_text(value / 10);
        assert(text.drop_last() =~= shorter);
        assert(text.last() == digit_char((value % 10) as int));
        assert(text[0] == shorter[0]);
        if shorter.len() == 1 {
            assert(shorter.drop_last() =~= Seq::<char>::empty());
            assert(decimal_value(shorter.drop_last()) == 0);
        }
        assert forall|i: int| 0 <= i < text.len() implies is_decimal_digit(#[trigger] text[i]) by {
            if i < shorter.len() {
                assert(text[i] == shorter[i]);
            }
        }
    }
}

/// Integers are written as their digits, after a minus sign where they are
/// negative; so different integers have different texts.
pub proof fn decimal_texts_read_back(value: int, other: int)
    ensures
        writes_signed(decimal_text(value), value),
        decimal_text(value) == decimal_text(other) ==> value == other,
{
    lemma_signed_text(value);
    lemma_signed_text(other);
}

proof fn lemma_signed_text(value: int)
    ensures
        writes_signed(decimal_text(value), value),
{
    if value < 0 {
        natural_texts_read_back((-value) as nat);
        assert(decimal_text(value).skip(1) =~= natural_text((-value) as nat));
    } else {
        natural_texts_read_back(value as nat);
    }
}

/// A byte is written as two hexadecimal digits, the higher one first.
pub proof fn hex_bytes_read_back(value: u8)
    ensures
        hex_byte_text(value).len() == 2,
        is_hex_digit(hex_byte_text(value)[0]),
        is_hex_digit(hex_byte_text(value)[1]),
        hex_value(hex_byte_text(value)[0]) * 16 + hex_value(hex_byte_text(value)[1]) == value,
{
}

/// Characters of the basic plane are their own code unit, and any other one is a
/// high and a low surrogate that give it back.
pub proof fn utf16_units_read_back(c: char)
    ensures
        (c as int) < 0x10000 ==> utf16_units(c).len() == 1 && utf16_units(c)[0] == c as int,
        c as int >= 0x10000 ==> {
            let units = utf16_units(c);
            &&& units.len() == 2
            &&& 0xd800 <= units[0] < 0xdc00
            &&& 0xdc00 <= units[1] < 0xe000
            &&& 0x10000 + (units[0] - 0xd800) * 0x400 + (units[1] - 0xdc00) == c as int
        },
{
}

/// The UTF-16 form of a text is that of its parts, one after the other.
pub proof fn utf16_keeps_the_order(first: Seq<char>, second: Seq<char>)
    ensures
        utf16(first + second) == utf16(first) + utf16(second),
    decreases second.len(),
{
    if second.len() == 0 {
        assert(first + second =~= first);
        assert(utf16(first) + utf16(second) =~= utf16(first));
    } else {
        utf16_keeps_the_order(first, second.drop_last());
        assert((first + second).drop_last() =~= first + second.drop_last());
        assert((first + second).last() == second.last());
        assert(utf16(first + second) =~= utf16(first) + utf16(second));
    }
}

/// A text of characters of the basic plane has one code unit for each, with the
/// same number.
pub proof fn plain_texts_keep_their_characters(text: Seq<char>)
    requires
        forall|i: int| 0 <= i < text.len() ==> (#[trigger] text[i]) as int <= 0xffff,
    ensures
        utf16(text).len() == text.len(),
        forall|i: int| 0 <= i < text.len() ==> (#[trigger] utf16(text)[i]) as int == text[i] as int,
    decreases text.len(),
{
    if text.len() > 0 {
        let shorter = text.drop_last();
        assert forall|i: int| 0 <= i < shorter.len() implies (#[trigger] shorter[i]) as int
            <= 0xffff by {
            assert(shorter[i] == text[i]);
        }
        plain_texts_keep_their_characters(shorter);
        assert(text[text.len() - 1] as int <= 0xffff);
        assert forall|i: int| 0 <= i < text.len() implies (#[trigger] utf16(text)[i]) as int
            == text[i] as int by {
            if i < shorter.len() {
                assert(utf16(text)[i] == utf16(shorter)[i]);
                assert(utf16(shorter)[i] as int == shorter[i] as int);
                assert(shorter[i] == text[i]);
            } else {
                assert(i == text.len() - 1);
                utf16_units_read_back(text[i]);
                assert(utf16(text)[i] == utf16_units(text[i])[0]);
            }
        }
    }
}

/// Where two texts begin with digits that end at something else, they begin with
/// the same digits.
pub proof fn lemma_same_digits(
    a: Seq<char>,
    b: Seq<char>,
    after_a: Seq<char>,
    after_b: Seq<char>,
)
    requires
        all_digits(a),
        all_digits(b),
        a + after_a == b + after_b,
        after_a.len() > 0 ==> !is_decimal_digit(after_a[0]),
        after_b.len() > 0 ==> !is_decimal_digit(after_b[0]),
    ensures
        a == b,
        after_a == after_b,
{
    let text = a + after_a;
    if a.len() < b.len() {
        assert(text[a.len() as int] == b[a.len() as int]);
        assert((a + after_a).len() == (b + after_b).len());
        assert(text[a.len() as int] == after_a[0]);
        assert(false);
    }
    if b.len() < a.len() {
        assert((b + after_b)[b.len() as int] == a[b.len() as int]);
        assert((a + after_a).len() == (b + after_b).len());
        assert((b + after_b)[b.len() as int] == after_b[0]);
        assert(false);
    }
    assert(a =~= text.take(a.len() as int));
    assert(b =~= (b + after_b).take(a.len() as int));
    assert(after_a =~= text.skip(a.len() as int));
    assert(after_b =~= (b + after_b).skip(a.len() as int));
}

/// Three numbers between separators are the same where their texts are.
pub proof fn lemma_same_three_numbers(
    a: (Seq<char>, Seq<char>, Seq<char>),
    b: (Seq<char>, Seq<char>, Seq<char>),
    separator: Seq<char>,
    end: Seq<char>,
)
    requires
        all_digits(a.0) && all_digits(a.1) && all_digits(a.2),
        all_digits(b.0) && all_digits(b.1) && all_digits(b.2),
        separator.len() > 0 && !is_decimal_digit(separator[0]),
        end.len() > 0 ==> !is_decimal_digit(end[0]),
        a.0 + (separator + (a.1 + (separator + (a.2 + end)))) == b.0 + (separator + (b.1 + (
        separator + (b.2 + end)))),
    ensures
        a == b,
{
    let (a1, b1) = (a.1 + (separator + (a.2 + end)), b.1 + (separator + (b.2 + end)));
    lemma_same_digits(a.0, b.0, separator + a1, separator + b1);
    lemma_same_rest(separator, a1, b1);
    lemma_same_digits(a.1, b.1, separator + (a.2 + end), separator + (b.2 + end));
    lemma_same_rest(separator, a.2 + end, b.2 + end);
    lemma_same_digits(a.2, b.2, end, end);
}

proof fn lemma_same_rest(front: Seq<char>, a: Seq<char>, b: Seq<char>)
    requires
        front + a == front + b,
    ensures
        a == b,
{
    assert(a =~= (front + a).skip(front.len() as int));
    assert(b =~= (front + b).skip(front.len() as int));
}

} // verus!
