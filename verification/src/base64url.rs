//! Base64 with the URL-safe alphabet and without padding.
//!
//! Three bytes become four characters, each standing for six bits. A last
//! group of one byte becomes two characters and one of two bytes becomes
//! three, the missing bits taken as zero.

use vstd::prelude::*;

verus! {

/// The character that stands for the six-bit value `v`.
pub open spec fn sextet_char(v: int) -> char {
    if v < 26 {
        ((65 + v) as u8) as char
    } else if v < 52 {
        ((71 + v) as u8) as char
    } else if v < 62 {
        ((v - 4) as u8) as char
    } else if v == 62 {
        '-'
    } else {
        '_'
    }
}

/// True when `c` belongs to the URL-safe alphabet: a letter, a digit, `-` or
/// `_`.
pub open spec fn is_base64url_char(c: char) -> bool {
    ('A' <= c <= 'Z') || ('a' <= c <= 'z') || ('0' <= c <= '9') || c == '-' || c == '_'
}

/// True when every character of `s` belongs to the URL-safe alphabet.
pub open spec fn is_base64url(s: Seq<char>) -> bool {
    forall|i: int| 0 <= i < s.len() ==> is_base64url_char(#[trigger] s[i])
}

/// The four characters of the 24-bit value `n`.
pub open spec fn quad(n: int) -> Seq<char> {
    seq![
        sextet_char(n / 262144),
        sextet_char(n / 4096 % 64),
        sextet_char(n / 64 % 64),
        sextet_char(n % 64),
    ]
}

/// The three characters of the 18-bit value `n`.
pub open spec fn triple(n: int) -> Seq<char> {
    seq![sextet_char(n / 4096), sextet_char(n / 64 % 64), sextet_char(n % 64)]
}

/// The two characters of the 12-bit value `n`.
pub open spec fn double(n: int) -> Seq<char> {
    seq![sextet_char(n / 64), sextet_char(n % 64)]
}

/// The encoding of `bytes`.
pub open spec fn encode(bytes: Seq<u8>) -> Seq<char>
    decreases bytes.len(),
{
    if bytes.len() == 0 {
        Seq::empty()
    } else if bytes.len() == 1 {
        double(bytes[0] as int * 16)
    } else if bytes.len() == 2 {
        triple((bytes[0] as int * 256 + bytes[1] as int) * 4)
    } else {
        quad(bytes[0] as int * 65536 + bytes[1] as int * 256 + bytes[2] as int) + encode(
            bytes.skip(3),
        )
    }
}

/// The length of the encoding of `n` bytes.
pub open spec fn encoded_len(n: nat) -> nat {
    (4 * n + 2) / 3
}

/// Every six-bit value has a character of the alphabet.
pub proof fn lemma_sextet_char_in_alphabet(v: int)
    requires
        0 <= v < 64,
    ensures
        is_base64url_char(sextet_char(v)),
{
}

/// Different six-bit values have different characters.
pub proof fn lemma_sextet_char_injective(v: int, w: int)
    requires
        0 <= v < 64,
        0 <= w < 64,
        sextet_char(v) == sextet_char(w),
    ensures
        v == w,
{
}

/// An encoding holds characters of the alphabet only; in particular it holds
/// no `.`.
pub proof fn lemma_encode_alphabet(bytes: Seq<u8>)
    ensures
        is_base64url(encode(bytes)),
    decreases bytes.len(),
{
    if bytes.len() == 1 {
        let n = bytes[0] as int * 16;
        lemma_sextet_char_in_alphabet(n / 64);
        lemma_sextet_char_in_alphabet(n % 64);
    } else if bytes.len() == 2 {
        let n = (bytes[0] as int * 256 + bytes[1] as int) * 4;
        lemma_sextet_char_in_alphabet(n / 4096);
        lemma_sextet_char_in_alphabet(n / 64 % 64);
        lemma_sextet_char_in_alphabet(n % 64);
    } else if bytes.len() >= 3 {
        let n = bytes[0] as int * 65536 + bytes[1] as int * 256 + bytes[2] as int;
        lemma_sextet_char_in_alphabet(n / 262144);
        lemma_sextet_char_in_alphabet(n / 4096 % 64);
        lemma_sextet_char_in_alphabet(n / 64 % 64);
        lemma_sextet_char_in_alphabet(n % 64);
        lemma_encode_alphabet(bytes.skip(3));
    }
}

/// An encoding has four characters for every three bytes, rounded up.
pub proof fn lemma_encode_len(bytes: Seq<u8>)
    ensures
        encode(bytes).len() == encoded_len(bytes.len()),
    decreases bytes.len(),
{
    if bytes.len() >= 3 {
        lemma_encode_len(bytes.skip(3));
    }
}

/// Different 24-bit values have different groups of four characters.
pub proof fn lemma_quad_injective(m: int, n: int)
    requires
        0 <= m < 16777216,
        0 <= n < 16777216,
        quad(m) == quad(n),
    ensures
        m == n,
{
    assert(quad(m)[0] == quad(n)[0]);
    assert(quad(m)[1] == quad(n)[1]);
    assert(quad(m)[2] == quad(n)[2]);
    assert(quad(m)[3] == quad(n)[3]);
    lemma_sextet_char_injective(m / 262144, n / 262144);
    lemma_sextet_char_injective(m / 4096 % 64, n / 4096 % 64);
    lemma_sextet_char_injective(m / 64 % 64, n / 64 % 64);
    lemma_sextet_char_injective(m % 64, n % 64);
}

/// Different 18-bit values have different groups of three characters.
pub proof fn lemma_triple_injective(m: int, n: int)
    requires
        0 <= m < 262144,
        0 <= n < 262144,
        triple(m) == triple(n),
    ensures
        m == n,
{
    assert(triple(m)[0] == triple(n)[0]);
    assert(triple(m)[1] == triple(n)[1]);
    assert(triple(m)[2] == triple(n)[2]);
    lemma_sextet_char_injective(m / 4096, n / 4096);
    lemma_sextet_char_injective(m / 64 % 64, n / 64 % 64);
    lemma_sextet_char_injective(m % 64, n % 64);
}

/// Different 12-bit values have different groups of two characters.
pub proof fn lemma_double_injective(m: int, n: int)
    requires
        0 <= m < 4096,
        0 <= n < 4096,
        double(m) == double(n),
    ensures
        m == n,
{
    assert(double(m)[0] == double(n)[0]);
    assert(double(m)[1] == double(n)[1]);
    lemma_sextet_char_injective(m / 64, n / 64);
    lemma_sextet_char_injective(m % 64, n % 64);
}

/// Byte strings of different lengths have encodings of different lengths.
pub proof fn lemma_encoded_len_injective(m: nat, n: nat)
    requires
        encoded_len(m) == encoded_len(n),
    ensures
        m == n,
{
}

/// Three bytes are determined by the 24-bit value they make.
proof fn lemma_three_bytes(a0: u8, a1: u8, a2: u8, b0: u8, b1: u8, b2: u8)
    requires
        a0 as int * 65536 + a1 as int * 256 + a2 as int == b0 as int * 65536 + b1 as int * 256
            + b2 as int,
    ensures
        a0 == b0,
        a1 == b1,
        a2 == b2,
{
}

/// Different byte strings have different encodings.
pub proof fn lemma_encode_injective(a: Seq<u8>, b: Seq<u8>)
    requires
        encode(a) == encode(b),
    ensures
        a == b,
    decreases a.len(),
{
    lemma_encode_len(a);
    lemma_encode_len(b);
    lemma_encoded_len_injective(a.len(), b.len());
    if a.len() == 0 {
        assert(a =~= b);
    } else if a.len() == 1 {
        lemma_double_injective(a[0] as int * 16, b[0] as int * 16);
        assert(a =~= b);
    } else if a.len() == 2 {
        lemma_triple_injective(
            (a[0] as int * 256 + a[1] as int) * 4,
            (b[0] as int * 256 + b[1] as int) * 4,
        );
        assert(a =~= b);
    } else {
        let m = a[0] as int * 65536 + a[1] as int * 256 + a[2] as int;
        let n = b[0] as int * 65536 + b[1] as int * 256 + b[2] as int;
        assert(quad(m) =~= encode(a).take(4));
        assert(quad(n) =~= encode(b).take(4));
        lemma_quad_injective(m, n);
        lemma_three_bytes(a[0], a[1], a[2], b[0], b[1], b[2]);
        assert(encode(a.skip(3)) =~= encode(a).skip(4));
        assert(encode(b.skip(3)) =~= encode(b).skip(4));
        lemma_encode_injective(a.skip(3), b.skip(3));
        assert forall|i: int| 0 <= i < a.len() implies a[i] == b[i] by {
            if i >= 3 {
                assert(a[i] == a.skip(3)[i - 3]);
                assert(b[i] == b.skip(3)[i - 3]);
            }
        }
        assert(a =~= b);
    }
}

/// The character of a six-bit value.
pub fn sextet(v: u32) -> (c: char)
    requires
        v < 64,
    ensures
        c == sextet_char(v as int),
{
    let b: u8 = if v < 26 {
        (65 + v) as u8
    } else if v < 52 {
        (71 + v) as u8
    } else if v < 62 {
        (v - 4) as u8
    } else if v == 62 {
        45
    } else {
        95
    };
    b as char
}

/// Encodes `bytes`.
pub fn encode_bytes(bytes: &[u8]) -> (s: String)
    ensures
        s@ == encode(bytes@),
{
    let n = bytes.len();
    let mut out = String::new();
    let mut i: usize = 0;
    assert(bytes@.skip(0) =~= bytes@);
    while n - i >= 3
        invariant
            n == bytes@.len(),
            i <= n,
            out@ + encode(bytes@.skip(i as int)) == encode(bytes@),
        decreases n - i,
    {
        let v: u32 = (bytes[i] as u32) * 65536 + (bytes[i + 1] as u32) * 256 + (bytes[i
            + 2] as u32);
        let ghost rest = bytes@.skip(i as int);
        let ghost before = out@;
        out.push(sextet(v / 262144));
        out.push(sextet(v / 4096 % 64));
        out.push(sextet(v / 64 % 64));
        out.push(sextet(v % 64));
        proof {
            assert(rest.skip(3) =~= bytes@.skip(i as int + 3));
            assert(out@ =~= before + quad(v as int));
            assert(out@ + encode(bytes@.skip(i as int + 3)) =~= before + encode(rest));
        }
        i += 3;
    }
    let ghost rest = bytes@.skip(i as int);
    let ghost before = out@;
    if n - i == 1 {
        let v: u32 = (bytes[i] as u32) * 16;
        out.push(sextet(v / 64));
        out.push(sextet(v % 64));
        assert(out@ =~= before + encode(rest));
    } else if n - i == 2 {
        let v: u32 = ((bytes[i] as u32) * 256 + (bytes[i + 1] as u32)) * 4;
        out.push(sextet(v / 4096));
        out.push(sextet(v / 64 % 64));
        out.push(sextet(v % 64));
        assert(out@ =~= before + encode(rest));
    } else {
        assert(out@ =~= before + encode(rest));
    }
    out
}

} // verus!
