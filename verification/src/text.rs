use vstd::prelude::*;

verus! {

broadcast use vstd::string::group_string_axioms;

/// The character of a decimal or hexadecimal digit, upper case for ten and above.
pub open spec fn digit_char(d: nat) -> char {
    if d == 0 { '0' }
    else if d == 1 { '1' }
    else if d == 2 { '2' }
    else if d == 3 { '3' }
    else if d == 4 { '4' }
    else if d == 5 { '5' }
    else if d == 6 { '6' }
    else if d == 7 { '7' }
    else if d == 8 { '8' }
    else if d == 9 { '9' }
    else if d == 10 { 'A' }
    else if d == 11 { 'B' }
    else if d == 12 { 'C' }
    else if d == 13 { 'D' }
    else if d == 14 { 'E' }
    else { 'F' }
}

/// The digits of `n` in base `base`, most significant first, without leading zeros
/// (zero is the single digit `0`).
pub open spec fn digits(n: nat, base: nat) -> Seq<char>
    recommends
        2 <= base <= 16,
    decreases n,
{
    if base < 2 || n < base {
        seq![digit_char(n % 16)]
    } else {
        proof {
            assert(n / base < n) by (nonlinear_arith)
                requires
                    base >= 2,
                    n >= base,
            ;
        }
        digits(n / base, base).push(digit_char(n % base))
    }
}

/// What `{}` prints for an unsigned integer.
pub open spec fn decimal(n: nat) -> Seq<char> {
    digits(n, 10)
}

/// What `{:X}` prints for an unsigned integer.
pub open spec fn upper_hex(n: nat) -> Seq<char> {
    digits(n, 16)
}

/// What `{}` prints for a signed integer.
pub open spec fn signed_decimal(i: int) -> Seq<char> {
    if i < 0 {
        seq!['-'] + decimal((-i) as nat)
    } else {
        decimal(i as nat)
    }
}

/// What `{:02}` prints for an unsigned integer: at least two digits.
pub open spec fn decimal_pad2(n: nat) -> Seq<char> {
    if n < 10 {
        seq!['0'] + decimal(n)
    } else {
        decimal(n)
    }
}

/// The value of a digit character: `0`..`9` are 0 to 9, `A`..`F` are 10 to 15.
pub open spec fn char_value(c: char) -> int {
    if '0' <= c <= '9' {
        c as int - 48
    } else if 'A' <= c <= 'F' {
        c as int - 55
    } else {
        -1
    }
}

/// The number that a string of digits in base `base` stands for.
pub open spec fn digits_value(s: Seq<char>, base: nat) -> int
    decreases s.len(),
{
    if s.len() == 0 {
        0
    } else {
        digits_value(s.drop_last(), base) * base + char_value(s.last())
    }
}

/// Each digit character stands for its digit.
proof fn lemma_digit_char_value(d: nat)
    requires
        d < 16,
    ensures
        char_value(digit_char(d)) == d,
{
    assert('0' as int == 48 && '9' as int == 57 && 'A' as int == 65 && 'F' as int == 70);
    if d == 0 { assert('0' as int == 48); }
    else if d == 1 { assert('1' as int == 49); }
    else if d == 2 { assert('2' as int == 50); }
    else if d == 3 { assert('3' as int == 51); }
    else if d == 4 { assert('4' as int == 52); }
    else if d == 5 { assert('5' as int == 53); }
    else if d == 6 { assert('6' as int == 54); }
    else if d == 7 { assert('7' as int == 55); }
    else if d == 8 { assert('8' as int == 56); }
    else if d == 9 { assert('9' as int == 57); }
    else if d == 10 { assert('A' as int == 65); }
    else if d == 11 { assert('B' as int == 66); }
    else if d == 12 { assert('C' as int == 67); }
    else if d == 13 { assert('D' as int == 68); }
    else if d == 14 { assert('E' as int == 69); }
    else { assert('F' as int == 70); }
}

/// Printing a number in a base and reading the digits back gives the number,
/// and every digit printed is a digit of that base.
pub proof fn lemma_digits_read_back(n: nat, base: nat)
    requires
        2 <= base <= 16,
    ensures
        digits_value(digits(n, base), base) == n,
        forall|i: int| 0 <= i < digits(n, base).len() ==> 0 <= #[trigger] char_value(digits(n, base)[i]) < base,
        digits(n, base).len() >= 1,
    decreases n,
{
    if n < base {
        assert(n % 16 == n);
        lemma_digit_char_value(n);
        let s = digits(n, base);
        assert(s == seq![digit_char(n)]);
        assert(s.drop_last() =~= Seq::<char>::empty());
        assert(digits_value(s.drop_last(), base) == 0);
        assert(s.last() == digit_char(n));
        assert(digits_value(s, base) == 0 * base + char_value(digit_char(n)));
    } else {
        assert(n / base < n) by (nonlinear_arith)
            requires
                base >= 2,
                n >= base,
        ;
        lemma_digits_read_back(n / base, base);
        let s = digits(n, base);
        assert(s.drop_last() =~= digits(n / base, base));
        assert((n / base) * base + n % base == n) by (nonlinear_arith)
            requires
                base >= 2,
        ;
        assert(n % base < base) by (nonlinear_arith)
            requires
                base >= 2,
        ;
        lemma_digit_char_value(n % base);
        let p = digits(n / base, base);
        assert(s.last() == digit_char(n % base));
        assert(digits_value(s, base) == digits_value(p, base) * base + char_value(s.last()));
        assert(digits_value(p, base) == n / base);
        assert(digits_value(s, base) == (n / base) * base + n % base);
        assert forall|i: int| 0 <= i < s.len() implies 0 <= #[trigger] char_value(s[i]) < base by {
            if i < p.len() {
                assert(s[i] == p[i]);
            }
        }
    }
}

/// `{}` of a number reads back as that number; `{:02}` does too, and has at
/// least two digits; a negative number is printed as `-` and its magnitude.
pub proof fn lemma_decimal_forms(n: nat, i: int)
    ensures
        digits_value(decimal(n), 10) == n,
        digits_value(decimal_pad2(n), 10) == n,
        decimal_pad2(n).len() >= 2,
        i < 0 ==> signed_decimal(i) == seq!['-'] + decimal((-i) as nat),
        i >= 0 ==> signed_decimal(i) == decimal(i as nat),
{
    lemma_digits_read_back(n, 10);
    if n < 10 {
        let s = seq!['0'] + decimal(n);
        assert(decimal(n) =~= seq![digit_char(n)]);
        assert(s.drop_last() =~= seq!['0']);
        assert(seq!['0'].drop_last() =~= Seq::<char>::empty());
        let z = seq!['0'];
        assert(z.drop_last() =~= Seq::<char>::empty());
        assert(z.last() == '0');
        assert('0' as int == 48);
        assert(char_value('0') == 0);
        assert(digits_value(z, 10) == digits_value(z.drop_last(), 10) * 10 + char_value(z.last()));
        assert(digits_value(z, 10) == 0);
        lemma_digit_char_value(n);
        assert(digits_value(s, 10) == digits_value(z, 10) * 10 + char_value(s.last()));
        assert(s.last() == digit_char(n % 16));
        assert(decimal(n).drop_last() =~= Seq::<char>::empty());
    } else {
        assert(n / 10 >= 1);
        lemma_digits_read_back(n / 10, 10);
    }
}

/// Appends one character to a string.
#[verifier::external_body]
pub(crate) fn push_char(s: &mut String, c: char)
    ensures
        final(s)@ == old(s)@.push(c),
{
    s.push(c)
}

fn digit_to_char(d: u64) -> (c: char)
    requires
        d < 16,
    ensures
        c == digit_char(d as nat),
{
    match d {
        0 => '0',
        1 => '1',
        2 => '2',
        3 => '3',
        4 => '4',
        5 => '5',
        6 => '6',
        7 => '7',
        8 => '8',
        9 => '9',
        10 => 'A',
        11 => 'B',
        12 => 'C',
        13 => 'D',
        14 => 'E',
        _ => 'F',
    }
}

/// Appends the digits of `n` in base `base` to `out`.
pub fn write_digits(out: &mut String, n: u64, base: u64)
    requires
        2 <= base <= 16,
    ensures
        final(out)@ == old(out)@ + digits(n as nat, base as nat),
    decreases n,
{
    if n >= base {
        assert(n / base < n) by (nonlinear_arith)
            requires
                base >= 2,
                n >= base,
        ;
        write_digits(out, n / base, base);
        push_char(out, digit_to_char(n % base));
    } else {
        push_char(out, digit_to_char(n));
        assert(n as nat % 16 == n);
    }
}

/// Appends `{}` of an unsigned integer to `out`.
pub fn write_decimal(out: &mut String, n: u64)
    ensures
        final(out)@ == old(out)@ + decimal(n as nat),
{
    write_digits(out, n, 10);
}

/// Appends `{}` of a signed integer to `out`.
pub fn write_signed_decimal(out: &mut String, i: i64)
    ensures
        final(out)@ == old(out)@ + signed_decimal(i as int),
{
    if i < 0 {
        push_char(out, '-');
        let magnitude: u64 = if i == i64::MIN {
            9223372036854775808u64
        } else {
            (-i) as u64
        };
        write_decimal(out, magnitude);
        assert(old(out)@ + signed_decimal(i as int) =~= old(out)@.push('-') + decimal(magnitude as nat));
    } else {
        write_decimal(out, i as u64);
    }
}

/// Appends `{:02}` of an unsigned integer to `out`.
pub fn write_decimal_pad2(out: &mut String, n: u64)
    ensures
        final(out)@ == old(out)@ + decimal_pad2(n as nat),
{
    if n < 10 {
        push_char(out, '0');
        write_decimal(out, n);
        assert(old(out)@ + decimal_pad2(n as nat) =~= old(out)@.push('0') + decimal(n as nat));
    } else {
        write_decimal(out, n);
    }
}

/// The width a line of text takes when each ASCII character is `ascii_width`
/// wide and every other character `wide_width`.
pub open spec fn text_width_spec(chars: Seq<char>, ascii_width: nat, wide_width: nat) -> nat
    decreases chars.len(),
{
    if chars.len() == 0 {
        0
    } else {
        text_width_spec(chars.drop_last(), ascii_width, wide_width) + if (chars.last() as u32) < 128 {
            ascii_width
        } else {
            wide_width
        }
    }
}

/// The width of `text` when ASCII characters are `ascii_width` wide and all
/// others `wide_width` (saturating at `u64::MAX`).
pub fn text_width(text: &str, ascii_width: u32, wide_width: u32) -> (width: u64)
    ensures
        width as nat == if text_width_spec(text@, ascii_width as nat, wide_width as nat) <= u64::MAX {
            text_width_spec(text@, ascii_width as nat, wide_width as nat)
        } else {
            u64::MAX as nat
        },
{
    let mut width: u64 = 0;
    for c in it: text.chars()
        invariant
            it.seq() == text@,
            width as nat == if text_width_spec(text@.take(it.index()), ascii_width as nat, wide_width as nat) <= u64::MAX {
                text_width_spec(text@.take(it.index()), ascii_width as nat, wide_width as nat)
            } else {
                u64::MAX as nat
            },
    {
        let ghost i = it.index();
        assert(text@.take(i + 1).drop_last() =~= text@.take(i));
        let w: u32 = if (c as u32) < 128 { ascii_width } else { wide_width };
        width = width.saturating_add(w as u64);
    }
    assert(text@.take(text@.len() as int) =~= text@);
    width
}

} // verus!
