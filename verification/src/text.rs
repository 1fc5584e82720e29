use vstd::prelude::*;

verus! {

/// Appends one character to a string (std's `String::push`).
#[verifier::external_body]
pub(crate) fn string_push(s: &mut String, c: char)
    ensures
        final(s)@ == old(s)@.push(c),
{
    s.push(c)
}

/// The lowercase hexadecimal digit of a value in 0..16.
pub open spec fn hex_digit(n: int) -> char
    recommends
        0 <= n < 16,
{
    if n < 10 {
        (48 + n) as char
    } else {
        (87 + n) as char
    }
}

/// Is `c` one of `0-9a-f`?
pub open spec fn is_lower_hex_char(c: char) -> bool {
    ('0' <= c && c <= '9') || ('a' <= c && c <= 'f')
}

/// The two lowercase hexadecimal digits of a byte, high nibble first.
pub open spec fn byte_hex(b: u8) -> Seq<char> {
    seq![hex_digit((b as int) / 16), hex_digit((b as int) % 16)]
}

/// The lowercase hexadecimal text of a byte string, two digits per byte.
pub open spec fn hex_text(bs: Seq<u8>) -> Seq<char>
    decreases bs.len(),
{
    if bs.len() == 0 {
        Seq::empty()
    } else {
        hex_text(bs.drop_last()) + byte_hex(bs.last())
    }
}

/// The decimal digit character of a value in 0..10.
pub open spec fn digit_char(d: int) -> char
    recommends
        0 <= d < 10,
{
    (48 + d) as char
}

/// The decimal text of a natural number, without leading zeros.
pub open spec fn dec_nat(n: nat) -> Seq<char>
    decreases n,
{
    if n < 10 {
        seq![digit_char(n as int)]
    } else {
        dec_nat(n / 10).push(digit_char((n % 10) as int))
    }
}

/// The decimal text of an integer, with a leading `-` when negative.
pub open spec fn dec_int(n: int) -> Seq<char> {
    if n < 0 {
        seq!['-'] + dec_nat((-n) as nat)
    } else {
        dec_nat(n as nat)
    }
}

/// Is `c` an ASCII decimal digit?
pub open spec fn is_digit(c: char) -> bool {
    '0' <= c && c <= '9'
}

/// The value of a string of decimal digits.
pub open spec fn digits_value(d: Seq<char>) -> nat
    decreases d.len(),
{
    if d.len() == 0 {
        0
    } else {
        digits_value(d.drop_last()) * 10 + ((d.last() as int) - 48) as nat
    }
}

/// Is every character a decimal digit?
pub open spec fn all_digits(d: Seq<char>) -> bool {
    forall|i: int| 0 <= i < d.len() ==> is_digit(#[trigger] d[i])
}

fn hex_digit_exec(n: u8) -> (c: char)
    requires
        n < 16,
    ensures
        c == hex_digit(n as int),
{
    if n < 10 {
        (48u8 + n) as char
    } else {
        (87u8 + n) as char
    }
}

/// Appends the two hexadecimal digits of `b`.
pub fn push_byte_hex(s: &mut String, b: u8)
    ensures
        final(s)@ == old(s)@ + byte_hex(b),
{
    let hi = hex_digit_exec(b / 16);
    let lo = hex_digit_exec(b % 16);
    string_push(s, hi);
    string_push(s, lo);
    assert(s@ =~= old(s)@ + byte_hex(b));
}

/// Appends the decimal text of `n`.
pub fn push_decimal(s: &mut String, n: u64)
    ensures
        final(s)@ == old(s)@ + dec_nat(n as nat),
    decreases n,
{
    if n >= 10 {
        push_decimal(s, n / 10);
    }
    let d: u8 = (n % 10) as u8;
    string_push(s, (48u8 + d) as char);
    assert(s@ =~= old(s)@ + dec_nat(n as nat));
}

/// Appends the decimal text of `n`, with a leading `-` when negative.
pub fn push_signed_decimal(s: &mut String, n: i64)
    ensures
        final(s)@ == old(s)@ + dec_int(n as int),
{
    if n < 0 {
        string_push(s, '-');
        let magnitude: u64 = (0i128 - (n as i128)) as u64;
        push_decimal(s, magnitude);
        assert(s@ =~= old(s)@ + dec_int(n as int));
    } else {
        push_decimal(s, n as u64);
    }
}

/// The hexadecimal text has two characters per byte.
pub proof fn lemma_hex_text_len(bs: Seq<u8>)
    ensures
        hex_text(bs).len() == 2 * bs.len(),
    decreases bs.len(),
{
    if bs.len() > 0 {
        lemma_hex_text_len(bs.drop_last());
    }
}

/// Every character of the hexadecimal text is one of `0-9a-f`.
pub proof fn lemma_hex_text_chars(bs: Seq<u8>)
    ensures
        forall|i: int| 0 <= i < hex_text(bs).len() ==> is_lower_hex_char(#[trigger] hex_text(bs)[i]),
    decreases bs.len(),
{
    if bs.len() > 0 {
        lemma_hex_text_chars(bs.drop_last());
        let b = bs.last();
        assert(is_lower_hex_char(hex_digit((b as int) / 16)));
        assert(is_lower_hex_char(hex_digit((b as int) % 16)));
        let h = hex_text(bs);
        let p = hex_text(bs.drop_last());
        assert forall|i: int| 0 <= i < h.len() implies is_lower_hex_char(#[trigger] h[i]) by {
            if i < p.len() {
                assert(h[i] == p[i]);
            } else {
                assert(h[i] == byte_hex(b)[i - p.len()]);
            }
        }
    }
}

proof fn lemma_hex_digit_injective(x: int, y: int)
    requires
        0 <= x < 16,
        0 <= y < 16,
        hex_digit(x) == hex_digit(y),
    ensures
        x == y,
{
}

/// Different byte strings have different hexadecimal texts.
pub proof fn lemma_hex_text_injective(a: Seq<u8>, b: Seq<u8>)
    requires
        hex_text(a) == hex_text(b),
    ensures
        a == b,
    decreases a.len(),
{
    lemma_hex_text_len(a);
    lemma_hex_text_len(b);
    if a.len() > 0 {
        let n = hex_text(a).len();
        let pa = hex_text(a.drop_last());
        let pb = hex_text(b.drop_last());
        lemma_hex_text_len(a.drop_last());
        lemma_hex_text_len(b.drop_last());
        assert(hex_text(a)[n - 2] == hex_digit((a.last() as int) / 16));
        assert(hex_text(b)[n - 2] == hex_digit((b.last() as int) / 16));
        assert(hex_text(a)[n - 1] == hex_digit((a.last() as int) % 16));
        assert(hex_text(b)[n - 1] == hex_digit((b.last() as int) % 16));
        lemma_hex_digit_injective((a.last() as int) / 16, (b.last() as int) / 16);
        lemma_hex_digit_injective((a.last() as int) % 16, (b.last() as int) % 16);
        assert(a.last() == b.last());
        assert(pa =~= hex_text(a).subrange(0, n - 2));
        assert(pb =~= hex_text(b).subrange(0, n - 2));
        lemma_hex_text_injective(a.drop_last(), b.drop_last());
        assert(a =~= a.drop_last().push(a.last()));
        assert(b =~= b.drop_last().push(b.last()));
    }
}

/// The decimal text of a natural number is a non-empty run of digits, starting
/// with a digit, whose value is the number.
pub proof fn lemma_dec_nat_digits(n: nat)
    ensures
        dec_nat(n).len() >= 1,
        all_digits(dec_nat(n)),
        digits_value(dec_nat(n)) == n,
    decreases n,
{
    if n < 10 {
        assert(dec_nat(n).drop_last() =~= Seq::<char>::empty());
        assert(digits_value(Seq::<char>::empty()) == 0);
        assert(dec_nat(n).last() == digit_char(n as int));
        assert(is_digit(digit_char(n as int)));
    } else {
        lemma_dec_nat_digits(n / 10);
        let p = dec_nat(n / 10);
        assert(dec_nat(n).drop_last() =~= p);
        assert(dec_nat(n).last() == digit_char((n % 10) as int));
        assert((n / 10) * 10 + n % 10 == n);
        assert forall|i: int| 0 <= i < dec_nat(n).len() implies is_digit(#[trigger] dec_nat(n)[i]) by {
            if i < p.len() {
                assert(dec_nat(n)[i] == p[i]);
            }
        }
    }
}

} // verus!
