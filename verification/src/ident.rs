use vstd::prelude::*;

verus! {

/// The lower-case hexadecimal digit for a value below sixteen.
pub open spec fn hex_digit(d: int) -> char {
    if d == 0 {
        '0'
    } else if d == 1 {
        '1'
    } else if d == 2 {
        '2'
    } else if d == 3 {
        '3'
    } else if d == 4 {
        '4'
    } else if d == 5 {
        '5'
    } else if d == 6 {
        '6'
    } else if d == 7 {
        '7'
    } else if d == 8 {
        '8'
    } else if d == 9 {
        '9'
    } else if d == 10 {
        'a'
    } else if d == 11 {
        'b'
    } else if d == 12 {
        'c'
    } else if d == 13 {
        'd'
    } else if d == 14 {
        'e'
    } else {
        'f'
    }
}

/// The value of a hexadecimal digit; zero for any other character.
pub open spec fn digit_value(c: char) -> nat {
    if c == '1' {
        1
    } else if c == '2' {
        2
    } else if c == '3' {
        3
    } else if c == '4' {
        4
    } else if c == '5' {
        5
    } else if c == '6' {
        6
    } else if c == '7' {
        7
    } else if c == '8' {
        8
    } else if c == '9' {
        9
    } else if c == 'a' {
        10
    } else if c == 'b' {
        11
    } else if c == 'c' {
        12
    } else if c == 'd' {
        13
    } else if c == 'e' {
        14
    } else if c == 'f' {
        15
    } else {
        0
    }
}

/// Whether `c` is one of the sixteen lower-case hexadecimal digits.
pub open spec fn is_hex_char(c: char) -> bool {
    c == '0' || digit_value(c) != 0
}

/// The shortest hexadecimal numeral for `n`, most significant digit first.
pub open spec fn hex_digits(n: nat) -> Seq<char>
    decreases n,
{
    if n < 16 {
        seq![hex_digit(n as int)]
    } else {
        hex_digits(n / 16).push(hex_digit((n % 16) as int))
    }
}

/// `count` zeros.
pub open spec fn zeros(count: nat) -> Seq<char> {
    Seq::new(count, |i: int| '0')
}

/// The numeral for `n`, filled up with leading zeros to `width` digits. A
/// numeral that is longer than `width` is left as it is.
pub open spec fn hex_padded(n: nat, width: nat) -> Seq<char> {
    let digits = hex_digits(n);
    if digits.len() >= width {
        digits
    } else {
        zeros((width - digits.len()) as nat) + digits
    }
}

/// The number that a numeral denotes.
pub open spec fn hex_value(s: Seq<char>) -> nat
    decreases s.len(),
{
    if s.len() == 0 {
        0
    } else {
        hex_value(s.drop_last()) * 16 + digit_value(s.last())
    }
}

/// The identity made of a timestamp and a counter: the timestamp in at least
/// sixteen hexadecimal digits, a hyphen, the counter in at least eight.
pub open spec fn uuid_text(timestamp: nat, counter: nat) -> Seq<char> {
    hex_padded(timestamp, 16) + seq!['-'] + hex_padded(counter, 8)
}

/// Whether `text` is an identity that is generated when the counter stands
/// at `counter`, whatever the clock shows: its timestamp has at most 128
/// bits.
pub open spec fn is_generated_id(text: Seq<char>, counter: nat) -> bool {
    exists|timestamp: nat|
        timestamp <= u128::MAX && text == #[trigger] uuid_text(timestamp, counter)
}

/// Whether every character of `s` is a hexadecimal digit.
pub open spec fn all_hex(s: Seq<char>) -> bool {
    forall|i: int| 0 <= i < s.len() ==> is_hex_char(#[trigger] s[i])
}

proof fn lemma_hex_digit(d: int)
    requires
        0 <= d < 16,
    ensures
        digit_value(hex_digit(d)) == d,
        is_hex_char(hex_digit(d)),
        hex_digit(d) != '-',
{
}

/// A numeral is never empty and holds hexadecimal digits only.
pub proof fn lemma_hex_digits_shape(n: nat)
    ensures
        hex_digits(n).len() >= 1,
        all_hex(hex_digits(n)),
    decreases n,
{
    if n < 16 {
        lemma_hex_digit(n as int);
    } else {
        lemma_hex_digits_shape(n / 16);
        lemma_hex_digit((n % 16) as int);
    }
}

/// A numeral denotes the number it was made from.
pub proof fn lemma_hex_value_of_digits(n: nat)
    ensures
        hex_value(hex_digits(n)) == n,
    decreases n,
{
    if n < 16 {
        lemma_hex_digit(n as int);
        let s = seq![hex_digit(n as int)];
        assert(s.drop_last() =~= Seq::<char>::empty());
        assert(hex_value(s.drop_last()) == 0);
    } else {
        lemma_hex_value_of_digits(n / 16);
        lemma_hex_digit((n % 16) as int);
        let s = hex_digits(n);
        assert(s.drop_last() =~= hex_digits(n / 16));
        assert(s.last() == hex_digit((n % 16) as int));
    }
}

proof fn lemma_hex_value_zeros(count: nat)
    ensures
        hex_value(zeros(count)) == 0,
    decreases count,
{
    if count > 0 {
        lemma_hex_value_zeros((count - 1) as nat);
        assert(zeros(count).drop_last() =~= zeros((count - 1) as nat));
    }
}

proof fn lemma_hex_value_leading_zeros(count: nat, s: Seq<char>)
    ensures
        hex_value(zeros(count) + s) == hex_value(s),
    decreases s.len(),
{
    if s.len() == 0 {
        assert(zeros(count) + s =~= zeros(count));
        lemma_hex_value_zeros(count);
    } else {
        lemma_hex_value_leading_zeros(count, s.drop_last());
        assert((zeros(count) + s).drop_last() =~= zeros(count) + s.drop_last());
        assert((zeros(count) + s).last() == s.last());
    }
}

/// A padded numeral holds hexadecimal digits only, is as long as the width
/// asks at least, and denotes the number it was made from.
pub proof fn lemma_hex_padded(n: nat, width: nat)
    ensures
        all_hex(hex_padded(n, width)),
        hex_padded(n, width).len() >= width,
        hex_padded(n, width).len() >= 1,
        hex_value(hex_padded(n, width)) == n,
{
    lemma_hex_digits_shape(n);
    lemma_hex_value_of_digits(n);
    let digits = hex_digits(n);
    if digits.len() < width {
        lemma_hex_value_leading_zeros((width - digits.len()) as nat, digits);
    }
}

/// Two identities are equal only if they were made from the same timestamp
/// and the same counter.
pub proof fn uuid_text_injective(t1: nat, c1: nat, t2: nat, c2: nat)
    requires
        uuid_text(t1, c1) == uuid_text(t2, c2),
    ensures
        t1 == t2,
        c1 == c2,
{
    let a1 = hex_padded(t1, 16);
    let a2 = hex_padded(t2, 16);
    let b1 = hex_padded(c1, 8);
    let b2 = hex_padded(c2, 8);
    let s1 = uuid_text(t1, c1);
    let s2 = uuid_text(t2, c2);
    lemma_hex_padded(t1, 16);
    lemma_hex_padded(t2, 16);
    lemma_hex_padded(c1, 8);
    lemma_hex_padded(c2, 8);
    assert(s1[a1.len() as int] == '-');
    assert(s2[a2.len() as int] == '-');
    if a1.len() < a2.len() {
        assert(s2[a1.len() as int] == a2[a1.len() as int]);
        assert(is_hex_char(a2[a1.len() as int]));
        assert(false);
    }
    if a2.len() < a1.len() {
        assert(s1[a2.len() as int] == a1[a2.len() as int]);
        assert(is_hex_char(a1[a2.len() as int]));
        assert(false);
    }
    assert(a1 =~= s1.subrange(0, a1.len() as int));
    assert(a2 =~= s2.subrange(0, a2.len() as int));
    assert(b1 =~= s1.subrange(a1.len() as int + 1, s1.len() as int));
    assert(b2 =~= s2.subrange(a2.len() as int + 1, s2.len() as int));
}

proof fn lemma_pow16_16()
    ensures
        pow16(16) == 0x1_0000_0000_0000_0000nat,
{
    reveal_with_fuel(pow16, 9);
    assert(pow16(8) == 0x1_0000_0000nat);
}

/// A padded numeral for a number below sixteen to the power of `digits` is
/// at most `digits` digits long, if the width asks for no more.
proof fn lemma_hex_padded_len(n: nat, width: nat, digits: nat)
    requires
        1 <= width <= digits,
        n < pow16(digits),
    ensures
        hex_padded(n, width).len() <= digits,
{
    lemma_hex_len_bound(n, digits);
}

/// An identity that is made of a timestamp of at most 128 bits and a counter
/// of at most 64 bits is at most forty-nine characters long, all of them
/// ASCII, so that it takes as many bytes as it has characters.
pub proof fn uuid_text_is_short(timestamp: nat, counter: nat)
    requires
        timestamp <= u128::MAX,
        counter <= u64::MAX,
    ensures
        uuid_text(timestamp, counter).len() <= 49,
        vstd::utf8::is_ascii_chars(uuid_text(timestamp, counter)),
        vstd::utf8::encode_utf8(uuid_text(timestamp, counter)).len() <= 49,
{
    let head = hex_padded(timestamp, 16);
    let tail = hex_padded(counter, 8);
    let text = uuid_text(timestamp, counter);
    lemma_pow16_32();
    lemma_pow16_16();
    lemma_hex_padded_len(timestamp, 16, 32);
    lemma_hex_padded_len(counter, 8, 16);
    lemma_hex_padded(timestamp, 16);
    lemma_hex_padded(counter, 8);
    assert forall|i: int| 0 <= i < text.len() implies '\0' <= #[trigger] text[i] <= '\u{7f}' by {
        if i < head.len() {
            assert(text[i] == head[i]);
            assert(is_hex_char(head[i]));
        } else if i == head.len() {
            assert(text[i] == '-');
        } else {
            assert(text[i] == tail[i - head.len() - 1]);
            assert(is_hex_char(tail[i - head.len() - 1]));
        }
    }
    vstd::utf8::is_ascii_chars_encode_utf8(text);
}

/// An identity is at least twenty-five characters long and never empty.
pub proof fn uuid_text_length(timestamp: nat, counter: nat)
    ensures
        uuid_text(timestamp, counter).len() >= 25,
{
    lemma_hex_padded(timestamp, 16);
    lemma_hex_padded(counter, 8);
}

fn digit_str(d: u8) -> (s: &'static str)
    requires
        d < 16,
    ensures
        s@ == seq![hex_digit(d as int)],
{
    proof {
        reveal_strlit("0");
        reveal_strlit("1");
        reveal_strlit("2");
        reveal_strlit("3");
        reveal_strlit("4");
        reveal_strlit("5");
        reveal_strlit("6");
        reveal_strlit("7");
        reveal_strlit("8");
        reveal_strlit("9");
        reveal_strlit("a");
        reveal_strlit("b");
        reveal_strlit("c");
        reveal_strlit("d");
        reveal_strlit("e");
        reveal_strlit("f");
    }
    let s = if d == 0 {
        "0"
    } else if d == 1 {
        "1"
    } else if d == 2 {
        "2"
    } else if d == 3 {
        "3"
    } else if d == 4 {
        "4"
    } else if d == 5 {
        "5"
    } else if d == 6 {
        "6"
    } else if d == 7 {
        "7"
    } else if d == 8 {
        "8"
    } else if d == 9 {
        "9"
    } else if d == 10 {
        "a"
    } else if d == 11 {
        "b"
    } else if d == 12 {
        "c"
    } else if d == 13 {
        "d"
    } else if d == 14 {
        "e"
    } else {
        "f"
    };
    assert(s@ =~= seq![hex_digit(d as int)]);
    s
}

/// The number of digits in the shortest numeral for `n`.
fn hex_len(n: u128) -> (len: usize)
    ensures
        len == hex_digits(n as nat).len(),
        1 <= len <= 32,
{
    let mut rest: u128 = n;
    let mut len: usize = 1;
    proof {
        lemma_pow16_32();
        lemma_hex_len_bound(n as nat, 32);
    }
    while rest >= 16
        invariant
            1 <= len,
            hex_digits(n as nat).len() == hex_digits(rest as nat).len() + len - 1,
            hex_digits(n as nat).len() <= 32,
        decreases rest,
    {
        proof {
            lemma_hex_digits_shape((rest / 16) as nat);
        }
        rest = rest / 16;
        len = len + 1;
    }
    len
}

/// A number below sixteen to the power of `digits` has a numeral of at most
/// `digits` digits.
proof fn lemma_hex_len_bound(n: nat, digits: nat)
    requires
        digits >= 1,
        n < pow16(digits),
    ensures
        hex_digits(n).len() <= digits,
    decreases digits,
{
    if n >= 16 {
        assert(digits >= 2) by {
            if digits == 1 {
                assert(pow16(1) == 16 * pow16(0));
            }
        }
        assert(pow16(digits) == 16 * pow16((digits - 1) as nat));
        lemma_hex_len_bound(n / 16, (digits - 1) as nat);
    }
}

proof fn lemma_pow16_32()
    ensures
        pow16(32) == 0x1_0000_0000_0000_0000_0000_0000_0000_0000nat,
{
    reveal_with_fuel(pow16, 9);
    assert(pow16(8) == 0x1_0000_0000nat);
    assert(pow16(16) == 0x1_0000_0000_0000_0000nat);
    assert(pow16(24) == 0x1_0000_0000_0000_0000_0000_0000nat);
}

/// Sixteen to the power of `e`.
pub open spec fn pow16(e: nat) -> nat
    decreases e,
{
    if e == 0 {
        1
    } else {
        16 * pow16((e - 1) as nat)
    }
}

/// Appends the shortest numeral for `n` to `out`.
fn push_hex(out: &mut String, n: u128)
    ensures
        final(out)@ == old(out)@ + hex_digits(n as nat),
    decreases n,
{
    if n >= 16 {
        push_hex(out, n / 16);
    }
    let digit = (n % 16) as u8;
    out.append(digit_str(digit));
    assert(final(out)@ =~= old(out)@ + hex_digits(n as nat));
}

/// Appends the numeral for `n`, filled up with zeros to `width` digits.
fn push_hex_padded(out: &mut String, n: u128, width: usize)
    ensures
        final(out)@ == old(out)@ + hex_padded(n as nat, width as nat),
{
    let len = hex_len(n);
    let mut filled: usize = len;
    while filled < width
        invariant
            len == hex_digits(n as nat).len(),
            len <= filled,
            filled <= width || filled == len,
            out@ == old(out)@ + zeros((filled - len) as nat),
        decreases width - filled,
    {
        proof {
            reveal_strlit("0");
        }
        out.append("0");
        filled = filled + 1;
        assert(out@ =~= old(out)@ + zeros((filled - len) as nat));
    }
    push_hex(out, n);
    assert(out@ =~= old(out)@ + hex_padded(n as nat, width as nat));
}

/// Formats an identity from a timestamp in microseconds and a counter.
///
/// Two calls give the same identity only for the same timestamp and the same
/// counter (`uuid_text_injective`), so identities drawn with distinct counter
/// values are distinct whatever the clock does.
pub fn generate_uuid(timestamp_micros: u128, counter: u64) -> (id: String)
    ensures
        id@ == uuid_text(timestamp_micros as nat, counter as nat),
{
    let mut id = String::new();
    push_hex_padded(&mut id, timestamp_micros, 16);
    proof {
        reveal_strlit("-");
    }
    id.append("-");
    push_hex_padded(&mut id, counter as u128, 8);
    assert(id@ =~= uuid_text(timestamp_micros as nat, counter as nat));
    id
}

} // verus!
