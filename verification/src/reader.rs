//! Bounds-checked little-endian (and, for GUID tails, big-endian) scalar
//! reads over a byte buffer, zero-terminated string reads, and the small
//! string-building helpers the parsers share.
use vstd::prelude::*;

use crate::error::ParseError;

verus! {

// ---------------------------------------------------------------------------
// Scalar interpretation of byte runs.
// ---------------------------------------------------------------------------

/// The little-endian `u16` stored at `b[off .. off + 2]`.
pub open spec fn le_u16_at(b: Seq<u8>, off: int) -> u16
    recommends
        0 <= off,
        off + 2 <= b.len(),
{
    (b[off] + b[off + 1] * 0x100) as u16
}

/// The little-endian `u32` stored at `b[off .. off + 4]`.
pub open spec fn le_u32_at(b: Seq<u8>, off: int) -> u32
    recommends
        0 <= off,
        off + 4 <= b.len(),
{
    (b[off] + b[off + 1] * 0x100 + b[off + 2] * 0x1_0000 + b[off + 3] * 0x100_0000) as u32
}

/// The little-endian `u64` stored at `b[off .. off + 8]`.
pub open spec fn le_u64_at(b: Seq<u8>, off: int) -> u64
    recommends
        0 <= off,
        off + 8 <= b.len(),
{
    (b[off] + b[off + 1] * 0x100 + b[off + 2] * 0x1_0000 + b[off + 3] * 0x100_0000 + b[off + 4]
        * 0x1_0000_0000 + b[off + 5] * 0x100_0000_0000 + b[off + 6] * 0x1_0000_0000_0000 + b[off
        + 7] * 0x100_0000_0000_0000) as u64
}

/// The little-endian two's-complement `i32` stored at `b[off .. off + 4]`.
pub open spec fn le_i32_at(b: Seq<u8>, off: int) -> i32
    recommends
        0 <= off,
        off + 4 <= b.len(),
{
    if le_u32_at(b, off) < 0x8000_0000 {
        le_u32_at(b, off) as i32
    } else {
        (le_u32_at(b, off) - 0x1_0000_0000) as i32
    }
}

/// The big-endian `u16` stored at `b[off .. off + 2]`.
pub open spec fn be_u16_at(b: Seq<u8>, off: int) -> u16
    recommends
        0 <= off,
        off + 2 <= b.len(),
{
    (b[off] * 0x100 + b[off + 1]) as u16
}

/// The big-endian `u32` stored at `b[off .. off + 4]`.
pub open spec fn be_u32_at(b: Seq<u8>, off: int) -> u32
    recommends
        0 <= off,
        off + 4 <= b.len(),
{
    (b[off] * 0x100_0000 + b[off + 1] * 0x1_0000 + b[off + 2] * 0x100 + b[off + 3]) as u32
}

// ---------------------------------------------------------------------------
// In-bounds reads.  Callers establish the bound once per structure and then
// read each field without a further check.
// ---------------------------------------------------------------------------

/// Reads the byte at `off`.
pub fn get_u8(b: &[u8], off: usize) -> (r: u8)
    requires
        off < b@.len(),
    ensures
        r == b@[off as int],
{
    b[off]
}

/// Reads the little-endian `u16` at `off`.
pub fn get_u16(b: &[u8], off: usize) -> (r: u16)
    requires
        off + 2 <= b@.len(),
    ensures
        r == le_u16_at(b@, off as int),
{
    let b0 = b[off];
    let b1 = b[off + 1];
    b0 as u16 + b1 as u16 * 0x100
}

/// Reads the little-endian `u32` at `off`.
pub fn get_u32(b: &[u8], off: usize) -> (r: u32)
    requires
        off + 4 <= b@.len(),
    ensures
        r == le_u32_at(b@, off as int),
{
    let b0 = b[off];
    let b1 = b[off + 1];
    let b2 = b[off + 2];
    let b3 = b[off + 3];
    b0 as u32 + b1 as u32 * 0x100 + b2 as u32 * 0x1_0000 + b3 as u32 * 0x100_0000
}

/// Reads the little-endian `u64` at `off`.
pub fn get_u64(b: &[u8], off: usize) -> (r: u64)
    requires
        off + 8 <= b@.len(),
    ensures
        r == le_u64_at(b@, off as int),
{
    let _len = b.len();
    let lo = get_u32(b, off);
    let hi = get_u32(b, off + 4);
    lo as u64 + hi as u64 * 0x1_0000_0000
}

/// Reads the little-endian `i32` at `off`.
pub fn get_i32(b: &[u8], off: usize) -> (r: i32)
    requires
        off + 4 <= b@.len(),
    ensures
        r == le_i32_at(b@, off as int),
{
    let v = get_u32(b, off);
    if v < 0x8000_0000 {
        v as i32
    } else {
        ((v as i64) - 0x1_0000_0000) as i32
    }
}

/// Reads the big-endian `u16` at `off`.
pub fn get_be_u16(b: &[u8], off: usize) -> (r: u16)
    requires
        off + 2 <= b@.len(),
    ensures
        r == be_u16_at(b@, off as int),
{
    let b0 = b[off];
    let b1 = b[off + 1];
    b0 as u16 * 0x100 + b1 as u16
}

/// Reads the big-endian `u32` at `off`.
pub fn get_be_u32(b: &[u8], off: usize) -> (r: u32)
    requires
        off + 4 <= b@.len(),
    ensures
        r == be_u32_at(b@, off as int),
{
    let b0 = b[off];
    let b1 = b[off + 1];
    let b2 = b[off + 2];
    let b3 = b[off + 3];
    b0 as u32 * 0x100_0000 + b1 as u32 * 0x1_0000 + b2 as u32 * 0x100 + b3 as u32
}

/// True when a read of `n` bytes at `off` stays inside the buffer.
pub fn span_fits(b: &[u8], off: usize, n: usize) -> (r: bool)
    ensures
        r == (off + n <= b@.len()),
        b@.len() <= usize::MAX,
{
    off <= b.len() && b.len() - off >= n
}

// ---------------------------------------------------------------------------
// Characters and strings.  The image stores names as raw bytes; each byte
// becomes the character with the same code point, as `u8 as char` does.
// ---------------------------------------------------------------------------

/// The characters spelled by the byte run `s`, one character per byte.
pub open spec fn chars_of_bytes(s: Seq<u8>) -> Seq<char> {
    s.map_values(|b: u8| b as char)
}

/// Relies on `String::from(char)`: the returned string holds exactly the one
/// character given, here the code point of byte `b`.
#[verifier::external_body]
fn char_string(b: u8) -> (r: String)
    ensures
        r@ == seq![b as char],
{
    String::from(b as char)
}

/// Builds the string whose characters are the bytes of `v`, one per byte.
pub fn string_of_bytes(v: &Vec<u8>) -> (r: String)
    ensures
        r@ == chars_of_bytes(v@),
{
    let mut s = String::new();
    let mut i: usize = 0;
    while i < v.len()
        invariant
            i <= v@.len(),
            s@ == chars_of_bytes(v@.take(i as int)),
        decreases v@.len() - i,
    {
        let c = char_string(v[i]);
        s.append(c.as_str());
        proof {
            assert(s@ =~= chars_of_bytes(v@.take(i + 1 as int)));
        }
        i = i + 1;
    }
    proof {
        assert(v@.take(v@.len() as int) =~= v@);
    }
    s
}

/// The position of the first zero byte at or after `off`, or `b.len()` when
/// no terminator exists.
pub open spec fn first_nul(b: Seq<u8>, off: int) -> int
    decreases b.len() - off,
{
    if off < 0 || off >= b.len() {
        b.len() as int
    } else if b[off] == 0 {
        off
    } else {
        first_nul(b, off + 1)
    }
}

/// Scanning over a run of non-zero bytes does not move the first terminator.
proof fn lemma_first_nul_skip(b: Seq<u8>, off: int, i: int)
    requires
        0 <= off <= i <= b.len(),
        forall|j: int| off <= j < i ==> b[j] != 0,
    ensures
        first_nul(b, off) == first_nul(b, i),
    decreases i - off,
{
    if off < i {
        lemma_first_nul_skip(b, off + 1, i);
    }
}

/// The characters of the zero-terminated string stored at `off`, terminator
/// excluded.  Meaningful only when a terminator exists.
pub open spec fn str_at(b: Seq<u8>, off: int) -> Seq<char> {
    chars_of_bytes(b.subrange(off, first_nul(b, off)))
}

/// Reads the zero-terminated string at `off`.  Fails when no zero byte
/// follows `off` inside the buffer.
pub fn read_string(b: &[u8], off: usize) -> (r: Result<String, ParseError>)
    ensures
        r is Ok <==> first_nul(b@, off as int) < b@.len(),
        r matches Ok(s) ==> s@ == str_at(b@, off as int),
        r is Err ==> r == Err::<String, ParseError>(
            ParseError::StringDecodeFailure { offset: off as u64 },
        ),
{
    if off >= b.len() {
        return Err(ParseError::StringDecodeFailure { offset: off as u64 });
    }
    let mut i: usize = off;
    let mut v: Vec<u8> = Vec::new();
    proof {
        assert(v@ =~= b@.subrange(off as int, off as int));
    }
    while i < b.len() && b[i] != 0
        invariant
            off <= i <= b@.len(),
            forall|j: int| off <= j < i ==> b@[j] != 0,
            v@ == b@.subrange(off as int, i as int),
        decreases b@.len() - i,
    {
        v.push(b[i]);
        proof {
            assert(v@ =~= b@.subrange(off as int, i + 1 as int));
        }
        i = i + 1;
    }
    proof {
        if off <= b@.len() {
            lemma_first_nul_skip(b@, off as int, i as int);
        }
    }
    if i < b.len() {
        Ok(string_of_bytes(&v))
    } else {
        Err(ParseError::StringDecodeFailure { offset: off as u64 })
    }
}

// ---------------------------------------------------------------------------
// Decimal and hexadecimal rendering, used for synthesized ordinal names and
// for the GUID display form.
// ---------------------------------------------------------------------------

/// The ASCII decimal digits of `n`, most significant first.
pub open spec fn dec_bytes(n: int) -> Seq<u8>
    recommends
        n >= 0,
    decreases n,
{
    if n < 10 {
        seq![(0x30 + n) as u8]
    } else {
        dec_bytes(n / 10).push((0x30 + n % 10) as u8)
    }
}

/// Appends the decimal digits of `n` to `v`.
pub fn push_decimal(v: &mut Vec<u8>, n: u64)
    ensures
        final(v)@ == old(v)@ + dec_bytes(n as int),
    decreases n,
{
    if n >= 10 {
        push_decimal(v, n / 10);
    }
    v.push(0x30 + (n % 10) as u8);
    proof {
        assert(v@ =~= old(v)@ + dec_bytes(n as int));
    }
}

/// The ASCII uppercase hexadecimal digits of `n`, most significant first,
/// without leading zeros.
pub open spec fn hex_bytes(n: int) -> Seq<u8>
    recommends
        n >= 0,
    decreases n,
{
    if n < 16 {
        seq![hex_digit(n)]
    } else {
        hex_bytes(n / 16).push(hex_digit(n % 16))
    }
}

/// The ASCII code of hexadecimal digit `d`, uppercase.
pub open spec fn hex_digit(d: int) -> u8 {
    if d < 10 {
        (0x30 + d) as u8
    } else {
        (0x37 + d) as u8
    }
}

/// Appends the uppercase hexadecimal digits of `n` to `v`.
pub fn push_hex(v: &mut Vec<u8>, n: u64)
    ensures
        final(v)@ == old(v)@ + hex_bytes(n as int),
    decreases n,
{
    if n >= 16 {
        push_hex(v, n / 16);
    }
    let d = (n % 16) as u8;
    if d < 10 {
        v.push(0x30 + d);
    } else {
        v.push(0x37 + d);
    }
    proof {
        assert(v@ =~= old(v)@ + hex_bytes(n as int));
    }
}

/// Decimal digits render as the ASCII codes of `0` through `9`.
pub proof fn lemma_dec_bytes_digits(n: int)
    requires
        n >= 0,
    ensures
        dec_bytes(n).len() >= 1,
        forall|i: int| 0 <= i < dec_bytes(n).len() ==> 0x30 <= #[trigger] dec_bytes(n)[i] <= 0x39,
    decreases n,
{
    if n >= 10 {
        lemma_dec_bytes_digits(n / 10);
        assert forall|i: int| 0 <= i < dec_bytes(n).len() implies 0x30 <= #[trigger] dec_bytes(
            n,
        )[i] <= 0x39 by {
            if i < dec_bytes(n / 10).len() {
                assert(dec_bytes(n)[i] == dec_bytes(n / 10)[i]);
            }
        }
    }
}

/// The synthesized ordinal name always reads `(Ordinal `, then at least one
/// decimal digit, then `)`.
pub proof fn lemma_ordinal_name_shape(n: int)
    requires
        n >= 0,
    ensures
        ({
            let cs = ordinal_name_chars(n);
            &&& cs.len() >= 11
            &&& cs.subrange(0, 9) == chars_of_bytes(
                seq![0x28u8, 0x4Fu8, 0x72u8, 0x64u8, 0x69u8, 0x6Eu8, 0x61u8, 0x6Cu8, 0x20u8],
            )
            &&& cs.last() == (0x29u8 as char)
            &&& forall|i: int|
                9 <= i < cs.len() - 1 ==> (0x30u8 as char) <= #[trigger] cs[i] <= (0x39u8 as char)
        }),
{
    lemma_dec_bytes_digits(n);
    let bytes = seq![0x28u8, 0x4Fu8, 0x72u8, 0x64u8, 0x69u8, 0x6Eu8, 0x61u8, 0x6Cu8, 0x20u8]
        + dec_bytes(n) + seq![0x29u8];
    let cs = ordinal_name_chars(n);
    assert(cs.subrange(0, 9) =~= chars_of_bytes(
        seq![0x28u8, 0x4Fu8, 0x72u8, 0x64u8, 0x69u8, 0x6Eu8, 0x61u8, 0x6Cu8, 0x20u8],
    ));
    assert forall|i: int| 9 <= i < cs.len() - 1 implies (0x30u8 as char) <= #[trigger] cs[i] <= (
    0x39u8 as char) by {
        assert(bytes[i] == dec_bytes(n)[i - 9]);
        assert(0x30 <= dec_bytes(n)[i - 9] <= 0x39);
    }
}

/// The characters of the synthesized name `(Ordinal N)`.
pub open spec fn ordinal_name_chars(n: int) -> Seq<char> {
    chars_of_bytes(
        seq![0x28u8, 0x4Fu8, 0x72u8, 0x64u8, 0x69u8, 0x6Eu8, 0x61u8, 0x6Cu8, 0x20u8] + dec_bytes(n)
            + seq![0x29u8],
    )
}

/// Builds the synthesized name `(Ordinal N)` for ordinal `n`.
pub fn ordinal_name(n: u64) -> (r: String)
    ensures
        r@ == ordinal_name_chars(n as int),
{
    let mut v: Vec<u8> = Vec::new();
    v.push(0x28);
    v.push(0x4F);
    v.push(0x72);
    v.push(0x64);
    v.push(0x69);
    v.push(0x6E);
    v.push(0x61);
    v.push(0x6C);
    v.push(0x20);
    proof {
        assert(v@ =~= seq![0x28u8, 0x4Fu8, 0x72u8, 0x64u8, 0x69u8, 0x6Eu8, 0x61u8, 0x6Cu8, 0x20u8]);
    }
    push_decimal(&mut v, n);
    v.push(0x29);
    proof {
        assert(v@ =~= seq![0x28u8, 0x4Fu8, 0x72u8, 0x64u8, 0x69u8, 0x6Eu8, 0x61u8, 0x6Cu8, 0x20u8]
            + dec_bytes(n as int) + seq![0x29u8]);
    }
    string_of_bytes(&v)
}

} // verus!
