//! Base64 encoding of attachment bytes and decimal message identifiers.
use vstd::prelude::*;
use crate::text::{push_char, push_decimal, decimal};

verus! {

/// The symbol for the 6-bit value `v` in the standard Base64 alphabet:
/// `A`–`Z`, `a`–`z`, `0`–`9`, `+`, `/`.
pub open spec fn b64_symbol(v: int) -> char {
    if v < 26 {
        (65 + v) as char
    } else if v < 52 {
        (97 + (v - 26)) as char
    } else if v < 62 {
        (48 + (v - 52)) as char
    } else if v == 62 {
        '+'
    } else {
        '/'
    }
}

/// The standard Base64 alphabet, value 0 first.
pub open spec fn base64_alphabet() -> Seq<char> {
    "ABCDEFGHIJKLMNOPQRSTUVWXYZabcdefghijklmnopqrstuvwxyz0123456789+/"@
}

/// Every 6-bit value is written as the character at that position of the
/// standard alphabet `A`–`Z`, `a`–`z`, `0`–`9`, `+`, `/`; so distinct values
/// get distinct characters.
pub proof fn law_symbol_is_alphabet(v: int)
    requires
        0 <= v < 64,
    ensures
        base64_alphabet().len() == 64,
        b64_symbol(v) == base64_alphabet()[v],
        forall|w: int| 0 <= w < 64 && w != v ==> b64_symbol(w) != b64_symbol(v),
{
    reveal_strlit("ABCDEFGHIJKLMNOPQRSTUVWXYZabcdefghijklmnopqrstuvwxyz0123456789+/");
    assert forall|w: int| 0 <= w < 64 implies #[trigger] b64_symbol(w) == base64_alphabet()[w] by {
        assert(b64_symbol(0) == base64_alphabet()[0]);
        assert(b64_symbol(1) == base64_alphabet()[1]);
        assert(b64_symbol(2) == base64_alphabet()[2]);
        assert(b64_symbol(3) == base64_alphabet()[3]);
        assert(b64_symbol(4) == base64_alphabet()[4]);
        assert(b64_symbol(5) == base64_alphabet()[5]);
        assert(b64_symbol(6) == base64_alphabet()[6]);
        assert(b64_symbol(7) == base64_alphabet()[7]);
        assert(b64_symbol(8) == base64_alphabet()[8]);
        assert(b64_symbol(9) == base64_alphabet()[9]);
        assert(b64_symbol(10) == base64_alphabet()[10]);
        assert(b64_symbol(11) == base64_alphabet()[11]);
        assert(b64_symbol(12) == base64_alphabet()[12]);
        assert(b64_symbol(13) == base64_alphabet()[13]);
        assert(b64_symbol(14) == base64_alphabet()[14]);
        assert(b64_symbol(15) == base64_alphabet()[15]);
        assert(b64_symbol(16) == base64_alphabet()[16]);
        assert(b64_symbol(17) == base64_alphabet()[17]);
        assert(b64_symbol(18) == base64_alphabet()[18]);
        assert(b64_symbol(19) == base64_alphabet()[19]);
        assert(b64_symbol(20) == base64_alphabet()[20]);
        assert(b64_symbol(21) == base64_alphabet()[21]);
        assert(b64_symbol(22) == base64_alphabet()[22]);
        assert(b64_symbol(23) == base64_alphabet()[23]);
        assert(b64_symbol(24) == base64_alphabet()[24]);
        assert(b64_symbol(25) == base64_alphabet()[25]);
        assert(b64_symbol(26) == base64_alphabet()[26]);
        assert(b64_symbol(27) == base64_alphabet()[27]);
        assert(b64_symbol(28) == base64_alphabet()[28]);
        assert(b64_symbol(29) == base64_alphabet()[29]);
        assert(b64_symbol(30) == base64_alphabet()[30]);
        assert(b64_symbol(31) == base64_alphabet()[31]);
        assert(b64_symbol(32) == base64_alphabet()[32]);
        assert(b64_symbol(33) == base64_alphabet()[33]);
        assert(b64_symbol(34) == base64_alphabet()[34]);
        assert(b64_symbol(35) == base64_alphabet()[35]);
        assert(b64_symbol(36) == base64_alphabet()[36]);
        assert(b64_symbol(37) == base64_alphabet()[37]);
        assert(b64_symbol(38) == base64_alphabet()[38]);
        assert(b64_symbol(39) == base64_alphabet()[39]);
        assert(b64_symbol(40) == base64_alphabet()[40]);
        assert(b64_symbol(41) == base64_alphabet()[41]);
        assert(b64_symbol(42) == base64_alphabet()[42]);
        assert(b64_symbol(43) == base64_alphabet()[43]);
        assert(b64_symbol(44) == base64_alphabet()[44]);
        assert(b64_symbol(45) == base64_alphabet()[45]);
        assert(b64_symbol(46) == base64_alphabet()[46]);
        assert(b64_symbol(47) == base64_alphabet()[47]);
        assert(b64_symbol(48) == base64_alphabet()[48]);
        assert(b64_symbol(49) == base64_alphabet()[49]);
        assert(b64_symbol(50) == base64_alphabet()[50]);
        assert(b64_symbol(51) == base64_alphabet()[51]);
        assert(b64_symbol(52) == base64_alphabet()[52]);
        assert(b64_symbol(53) == base64_alphabet()[53]);
        assert(b64_symbol(54) == base64_alphabet()[54]);
        assert(b64_symbol(55) == base64_alphabet()[55]);
        assert(b64_symbol(56) == base64_alphabet()[56]);
        assert(b64_symbol(57) == base64_alphabet()[57]);
        assert(b64_symbol(58) == base64_alphabet()[58]);
        assert(b64_symbol(59) == base64_alphabet()[59]);
        assert(b64_symbol(60) == base64_alphabet()[60]);
        assert(b64_symbol(61) == base64_alphabet()[61]);
        assert(b64_symbol(62) == base64_alphabet()[62]);
        assert(b64_symbol(63) == base64_alphabet()[63]);
    }
}

/// The four output characters for a group of one to three input bytes; a
/// short group is padded with `=`.
pub open spec fn encode_group(g: Seq<u8>) -> Seq<char> {
    let b0 = g[0] as int;
    let b1 = if g.len() > 1 { g[1] as int } else { 0 };
    let b2 = if g.len() > 2 { g[2] as int } else { 0 };
    let s0 = b64_symbol(b0 / 4);
    let s1 = b64_symbol((b0 % 4) * 16 + b1 / 16);
    let s2 = b64_symbol((b1 % 16) * 4 + b2 / 64);
    let s3 = b64_symbol(b2 % 64);
    if g.len() == 1 {
        seq![s0, s1, '=', '=']
    } else if g.len() == 2 {
        seq![s0, s1, s2, '=']
    } else {
        seq![s0, s1, s2, s3]
    }
}

/// Standard padded Base64 of `data`, group by group from the front.
pub open spec fn base64(data: Seq<u8>) -> Seq<char>
    decreases data.len(),
{
    if data.len() == 0 {
        Seq::empty()
    } else if data.len() <= 3 {
        encode_group(data)
    } else {
        encode_group(data.take(3)) + base64(data.skip(3))
    }
}

/// Base64 output is four characters for every started group of three bytes.
pub proof fn law_base64_length(data: Seq<u8>)
    ensures
        base64(data).len() == 4 * ((data.len() + 2) / 3),
    decreases data.len(),
{
    if data.len() > 3 {
        law_base64_length(data.skip(3));
    }
}

fn symbol(v: u8) -> (c: char)
    requires
        v < 64,
    ensures
        c == b64_symbol(v as int),
{
    if v < 26 {
        (65u8 + v) as char
    } else if v < 52 {
        (97u8 + (v - 26)) as char
    } else if v < 62 {
        (48u8 + (v - 52)) as char
    } else if v == 62 {
        '+'
    } else {
        '/'
    }
}

/// Encodes `data` as standard padded Base64.
pub fn base64_encode(data: &[u8]) -> (r: String)
    ensures
        r@ == base64(data@),
        r@.len() == 4 * ((data@.len() + 2) / 3),
{
    proof {
        law_base64_length(data@);
    }
    let n = data.len();
    let mut result = String::new();
    let mut i: usize = 0;
    assert(data@.skip(0) =~= data@);
    while i < n
        invariant
            n == data@.len(),
            i <= n,
            result@ + base64(data@.skip(i as int)) == base64(data@),
        decreases n - i,
    {
        let rest = Ghost(data@.skip(i as int));
        let b0 = data[i];
        let b1: u8 = if n - i > 1 { data[i + 1] } else { 0 };
        let b2: u8 = if n - i > 2 { data[i + 2] } else { 0 };
        assert(b0 >> 2 == b0 / 4) by (bit_vector);
        assert(((b0 & 0x03) << 4) | (b1 >> 4) == (b0 % 4) * 16 + b1 / 16) by (bit_vector);
        assert(((b1 & 0x0f) << 2) | (b2 >> 6) == (b1 % 16) * 4 + b2 / 64) by (bit_vector);
        assert(b2 & 0x3f == b2 % 64) by (bit_vector);
        let ghost before = result@;
        push_char(&mut result, symbol(b0 >> 2));
        push_char(&mut result, symbol(((b0 & 0x03) << 4) | (b1 >> 4)));
        if n - i > 1 {
            push_char(&mut result, symbol(((b1 & 0x0f) << 2) | (b2 >> 6)));
            if n - i > 2 {
                push_char(&mut result, symbol(b2 & 0x3f));
            } else {
                push_char(&mut result, '=');
            }
        } else {
            push_char(&mut result, '=');
            push_char(&mut result, '=');
        }
        let step: usize = if n - i > 3 { 3 } else { n - i };
        proof {
            let g = rest@.take(step as int);
            assert(result@ =~= before + encode_group(g));
            if n - i > 3 {
                assert(rest@.skip(3) =~= data@.skip(i + 3));
            } else {
                assert(g =~= rest@);
                assert(data@.skip(n as int) =~= Seq::<u8>::empty());
            }
            assert(result@ + base64(data@.skip(i + step)) =~= before + base64(rest@));
        }
        i = i + step;
    }
    assert(data@.skip(n as int) =~= Seq::<u8>::empty());
    assert(result@ =~= base64(data@));
    result
}

/// Identifier of a message created at `nanos` nanoseconds after the Unix
/// epoch: `msg_` followed by the decimal number.
pub fn timestamp_id(nanos: u128) -> (r: String)
    ensures
        r@ == seq!['m', 's', 'g', '_'] + decimal(nanos as nat),
{
    let mut r = String::new();
    push_char(&mut r, 'm');
    push_char(&mut r, 's');
    push_char(&mut r, 'g');
    push_char(&mut r, '_');
    push_decimal(&mut r, nanos);
    r
}

} // verus!
