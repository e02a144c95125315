use vstd::prelude::*;

verus! {

/// Byte `k` (counted from the least significant end) of the two's complement
/// representation of `v`.
pub open spec fn byte_at(v: int, k: nat) -> u8
    decreases k,
{
    if k == 0 {
        (v % 256) as u8
    } else {
        byte_at(v / 256, (k - 1) as nat)
    }
}

/// The `n` bytes of `v`, least significant first.
pub open spec fn le_bytes(v: int, n: nat) -> Seq<u8> {
    Seq::new(n, |k: int| byte_at(v, k as nat))
}

/// The `n` bytes of `v`, most significant first.
pub open spec fn be_bytes(v: int, n: nat) -> Seq<u8> {
    Seq::new(n, |k: int| byte_at(v, (n - 1 - k) as nat))
}

/// Upper-case hexadecimal digit of a value below 16.
pub open spec fn hex_digit(d: int) -> char {
    if d < 10 {
        (('0' as int) + d) as char
    } else {
        (('A' as int) + d - 10) as char
    }
}

/// Two upper-case hexadecimal digits of a byte.
pub open spec fn hex_byte(b: u8) -> Seq<char> {
    seq![hex_digit(b as int / 16), hex_digit(b as int % 16)]
}

/// Two upper-case hexadecimal digits for each byte, in order.
pub open spec fn hex_bytes(bytes: Seq<u8>) -> Seq<char>
    decreases bytes.len(),
{
    if bytes.len() == 0 {
        Seq::empty()
    } else {
        hex_bytes(bytes.drop_last()) + hex_byte(bytes.last())
    }
}

/// `#` followed by the two-digit hexadecimal form of each of the first four bytes.
pub open spec fn color_text(bytes: Seq<u8>) -> Seq<char> {
    seq!['#'] + hex_bytes(bytes.take(4))
}

/// The texts `convert_color_to_hex6` may give for `c`: its in-memory bytes in the
/// machine's byte order, which is little-endian, or big-endian with a 32- or
/// 64-bit `isize`.
pub open spec fn is_native_color_text(c: isize, s: Seq<char>) -> bool {
    ||| s == color_text(le_bytes(c as int, 8))
    ||| s == color_text(be_bytes(c as int, 4))
    ||| s == color_text(be_bytes(c as int, 8))
}

pub open spec fn is_upper_hex(c: char) -> bool {
    ('0' <= c && c <= '9') || ('A' <= c && c <= 'F')
}

/// Colour text is `#` and eight upper-case hexadecimal digits, whatever the bytes.
pub proof fn lemma_color_text_shape(bytes: Seq<u8>)
    requires
        bytes.len() >= 4,
    ensures
        color_text(bytes).len() == 9,
        color_text(bytes)[0] == '#',
        forall|i: int| 1 <= i < 9 ==> is_upper_hex(#[trigger] color_text(bytes)[i]),
{
    let t = bytes.take(4);
    let t3 = t.drop_last();
    let t2 = t3.drop_last();
    let t1 = t2.drop_last();
    assert(t1.drop_last() =~= Seq::<u8>::empty());
    assert(hex_bytes(t1.drop_last()) =~= Seq::<char>::empty());
    assert(t1.last() == t[0] && t2.last() == t[1] && t3.last() == t[2] && t.last() == t[3]);
    assert(hex_bytes(t1) =~= hex_byte(t[0]));
    assert(hex_bytes(t2) =~= hex_byte(t[0]) + hex_byte(t[1]));
    assert(hex_bytes(t3) =~= hex_byte(t[0]) + hex_byte(t[1]) + hex_byte(t[2]));
    assert forall|b: u8| #![auto] is_upper_hex(hex_byte(b)[0]) && is_upper_hex(hex_byte(b)[1]) by {
        assert(0 <= b as int / 16 < 16);
        assert(0 <= b as int % 16 < 16);
    }
    let h = hex_bytes(t);
    assert(h =~= hex_byte(t[0]) + hex_byte(t[1]) + hex_byte(t[2]) + hex_byte(t[3]));
    assert forall|i: int| 1 <= i < 9 implies is_upper_hex(#[trigger] color_text(bytes)[i]) by {
        assert(color_text(bytes)[i] == h[i - 1]);
        let k = (i - 1) / 2;
        assert(h[i - 1] == hex_byte(t[k])[(i - 1) % 2]);
    }
}

/// Every text that `convert_color_to_hex6` may give is `#` and eight upper-case
/// hexadecimal digits.
pub proof fn lemma_native_color_text_shape(c: isize, s: Seq<char>)
    requires
        is_native_color_text(c, s),
    ensures
        s.len() == 9,
        s[0] == '#',
        forall|i: int| 1 <= i < 9 ==> is_upper_hex(#[trigger] s[i]),
{
    lemma_color_text_shape(le_bytes(c as int, 8));
    lemma_color_text_shape(be_bytes(c as int, 4));
    lemma_color_text_shape(be_bytes(c as int, 8));
}

/// Relies on `isize::to_ne_bytes`: the value's bytes in the machine's own order.
#[verifier::external_body]
fn native_bytes(c: isize) -> (r: Vec<u8>)
    ensures
        r@ == le_bytes(c as int, r@.len()) || r@ == be_bytes(c as int, r@.len()),
        r@.len() == 4 || r@.len() == 8,
{
    c.to_ne_bytes().to_vec()
}

/// Relies on `String::push`: appends one character.
#[verifier::external_body]
fn push_char(s: &mut String, c: char)
    ensures
        final(s)@ == old(s)@.push(c),
{
    s.push(c)
}

fn hex_digit_char(d: u8) -> (r: char)
    requires
        d < 16,
    ensures
        r == hex_digit(d as int),
{
    if d < 10 {
        ((48u8 + d) as char)
    } else {
        ((55u8 + d) as char)
    }
}

/// `#` and the upper-case hexadecimal digits of the first four bytes.
pub fn hex_color(bytes: &[u8]) -> (r: String)
    requires
        bytes@.len() >= 4,
    ensures
        r@ == color_text(bytes@),
{
    let mut s = String::new();
    push_char(&mut s, '#');
    assert(bytes@.take(0) =~= Seq::<u8>::empty());
    let mut i: usize = 0;
    while i < 4
        invariant
            0 <= i <= 4,
            bytes@.len() >= 4,
            s@ == seq!['#'] + hex_bytes(bytes@.take(i as int)),
        decreases 4 - i,
    {
        let b = bytes[i];
        push_char(&mut s, hex_digit_char(b / 16));
        push_char(&mut s, hex_digit_char(b % 16));
        proof {
            let next = bytes@.take(i + 1);
            assert(next.drop_last() =~= bytes@.take(i as int));
            assert(next.last() == b);
            assert(s@ =~= seq!['#'] + hex_bytes(next));
        }
        i = i + 1;
    }
    s
}

/// Colour integer to text: the first four of its in-memory bytes as upper-case
/// hexadecimal, after a `#`.
pub fn convert_color_to_hex6(color_number: isize) -> (r: String)
    ensures
        is_native_color_text(color_number, r@),
{
    let bytes = native_bytes(color_number);
    proof {
        let v = color_number as int;
        assert(le_bytes(v, 4).take(4) =~= le_bytes(v, 8).take(4));
        assert(le_bytes(v, 4) =~= le_bytes(v, 4).take(4));
        assert(be_bytes(v, 4) =~= be_bytes(v, 4).take(4));
    }
    hex_color(bytes.as_slice())
}

} // verus!
