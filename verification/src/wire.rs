//! Byte-level encodings shared by frames and payloads: fixed-width
//! little-endian integers for values, variable-length integers for sizes.

use vstd::prelude::*;

verus! {

/// The two bytes of `v`, low byte first.
pub open spec fn le16(v: u16) -> Seq<u8> {
    seq![(v % 256) as u8, (v / 256) as u8]
}

/// The four bytes of `v`, low byte first.
pub open spec fn le32(v: u32) -> Seq<u8> {
    seq![(v % 256) as u8, (v / 256 % 256) as u8, (v / 65536 % 256) as u8, (v / 16777216) as u8]
}

/// The eight bytes of `v`, low byte first.
pub open spec fn le64(v: u64) -> Seq<u8> {
    le32((v % 0x1_0000_0000) as u32) + le32((v / 0x1_0000_0000) as u32)
}

/// The number that the two bytes from `at` on stand for, low byte first.
pub open spec fn value16(s: Seq<u8>, at: int) -> u16 {
    (s[at] + 256 * s[at + 1]) as u16
}

/// The number that the four bytes from `at` on stand for, low byte first.
pub open spec fn value32(s: Seq<u8>, at: int) -> u32 {
    (s[at] + 256 * s[at + 1] + 65536 * s[at + 2] + 16777216 * s[at + 3]) as u32
}

/// The number that the eight bytes from `at` on stand for, low byte first.
pub open spec fn value64(s: Seq<u8>, at: int) -> u64 {
    (value32(s, at) + 0x1_0000_0000 * value32(s, at + 4)) as u64
}

/// A signed 32-bit number as the unsigned number with the same bits.
pub open spec fn bits32(v: i32) -> u32 {
    if v >= 0 {
        v as u32
    } else {
        (v + 0x1_0000_0000) as u32
    }
}

/// The signed 32-bit number with the bits of `u`.
pub open spec fn signed32(u: u32) -> i32 {
    if u < 0x8000_0000 {
        u as i32
    } else {
        (u - 0x1_0000_0000) as i32
    }
}

/// A signed 64-bit number as the unsigned number with the same bits.
pub open spec fn bits64(v: i64) -> u64 {
    if v >= 0 {
        v as u64
    } else {
        (v + 0x1_0000_0000_0000_0000) as u64
    }
}

/// The signed 64-bit number with the bits of `u`.
pub open spec fn signed64(u: u64) -> i64 {
    if u < 0x8000_0000_0000_0000 {
        u as i64
    } else {
        (u - 0x1_0000_0000_0000_0000) as i64
    }
}

/// A size as a variable-length integer: seven bits per byte, low bits
/// first, the top bit set on every byte but the last.
pub open spec fn varint(v: nat) -> Seq<u8>
    decreases v,
{
    if v < 128 {
        seq![v as u8]
    } else {
        seq![(128 + v % 128) as u8] + varint(v / 128)
    }
}

/// Reads a variable-length integer of at most `limit` bytes from the start
/// of `s`: the value and the number of bytes it takes. There is none where
/// the bytes run out first, or more than `limit` bytes would be needed, or
/// the integer ends in a byte of zero bits after another byte, which is not
/// how `varint` writes it.
pub open spec fn parse_varint(s: Seq<u8>, limit: nat) -> Option<(nat, nat)>
    decreases limit,
{
    if limit == 0 || s.len() == 0 {
        None
    } else if s[0] < 128 {
        Some((s[0] as nat, 1nat))
    } else {
        match parse_varint(s.drop_first(), (limit - 1) as nat) {
            Some((high, n)) => if high == 0 {
                None
            } else {
                Some((((s[0] - 128) + 128 * high) as nat, n + 1))
            },
            None => None,
        }
    }
}

/// Whether `s` starts with bytes that may still grow into a variable-length
/// integer of at most `limit` bytes: every byte so far has its top bit set
/// and fewer than `limit` bytes are there.
pub open spec fn varint_incomplete(s: Seq<u8>, limit: nat) -> bool {
    s.len() < limit && forall|i: int| 0 <= i < s.len() ==> s[i] >= 128
}

/// A number written as two bytes reads back as it was.
pub proof fn lemma_le16_round_trip(v: u16)
    ensures
        le16(v).len() == 2,
        value16(le16(v), 0) == v,
{
}

/// A number written as four bytes reads back as it was.
pub proof fn lemma_le32_round_trip(v: u32)
    ensures
        le32(v).len() == 4,
        value32(le32(v), 0) == v,
{
}

/// A number written as eight bytes reads back as it was.
pub proof fn lemma_le64_round_trip(v: u64)
    ensures
        le64(v).len() == 8,
        value64(le64(v), 0) == v,
{
    let lo = (v % 0x1_0000_0000) as u32;
    let hi = (v / 0x1_0000_0000) as u32;
    lemma_le32_round_trip(lo);
    lemma_le32_round_trip(hi);
    let s = le64(v);
    assert(s.len() == 8);
    assert(value32(s, 0) == value32(le32(lo), 0)) by {
        assert(s[0] == le32(lo)[0] && s[1] == le32(lo)[1] && s[2] == le32(lo)[2] && s[3] == le32(
            lo,
        )[3]);
    }
    assert(value32(s, 4) == value32(le32(hi), 0)) by {
        assert(s[4] == le32(hi)[0] && s[5] == le32(hi)[1] && s[6] == le32(hi)[2] && s[7] == le32(
            hi,
        )[3]);
    }
}

/// Four bytes are the digits to base 256 of the number they stand for.
proof fn lemma_split32(b0: u8, b1: u8, b2: u8, b3: u8)
    ensures
        ({
            let v = b0 + 256 * b1 + 65536 * b2 + 16777216 * b3;
            &&& 0 <= v <= u32::MAX
            &&& v % 256 == b0
            &&& v / 256 % 256 == b1
            &&& v / 65536 % 256 == b2
            &&& v / 16777216 == b3
        }),
{
    let v = b0 + 256 * b1 + 65536 * b2 + 16777216 * b3;
    assert(v / 256 == b1 + 256 * b2 + 65536 * b3);
    assert(v / 65536 == b2 + 256 * b3);
}

/// Two bytes read as a number and written again are the same bytes.
pub proof fn lemma_le16_at(s: Seq<u8>, at: int)
    requires
        0 <= at,
        at + 2 <= s.len(),
    ensures
        le16(value16(s, at)) == s.subrange(at, at + 2),
{
    assert(le16(value16(s, at)) =~= s.subrange(at, at + 2));
}

/// Four bytes read as a number and written again are the same bytes.
pub proof fn lemma_le32_at(s: Seq<u8>, at: int)
    requires
        0 <= at,
        at + 4 <= s.len(),
    ensures
        le32(value32(s, at)) == s.subrange(at, at + 4),
{
    lemma_split32(s[at], s[at + 1], s[at + 2], s[at + 3]);
    assert(le32(value32(s, at)) =~= s.subrange(at, at + 4));
}

/// Two 32-bit halves are the digits to base 2^32 of the number they stand for.
proof fn lemma_halves(lo: u32, hi: u32)
    ensures
        0 <= lo + 0x1_0000_0000 * hi <= u64::MAX,
        (lo + 0x1_0000_0000 * hi) % 0x1_0000_0000 == lo,
        (lo + 0x1_0000_0000 * hi) / 0x1_0000_0000 == hi,
{
}

/// Eight bytes read as a number and written again are the same bytes.
pub proof fn lemma_le64_at(s: Seq<u8>, at: int)
    requires
        0 <= at,
        at + 8 <= s.len(),
    ensures
        le64(value64(s, at)) == s.subrange(at, at + 8),
{
    let lo = value32(s, at);
    let hi = value32(s, at + 4);
    lemma_halves(lo, hi);
    lemma_le32_at(s, at);
    lemma_le32_at(s, at + 4);
    lemma_join(s, at, at + 4, at + 8);
}

/// Different numbers have different bytes.
pub proof fn lemma_le16_injective(x: u16, y: u16)
    requires
        le16(x) == le16(y),
    ensures
        x == y,
{
    lemma_le16_round_trip(x);
    lemma_le16_round_trip(y);
}

/// Different numbers have different bytes.
pub proof fn lemma_le32_injective(x: u32, y: u32)
    requires
        le32(x) == le32(y),
    ensures
        x == y,
{
    lemma_le32_round_trip(x);
    lemma_le32_round_trip(y);
}

/// Different numbers have different bytes.
pub proof fn lemma_le64_injective(x: u64, y: u64)
    requires
        le64(x) == le64(y),
    ensures
        x == y,
{
    lemma_le64_round_trip(x);
    lemma_le64_round_trip(y);
}

/// Different signed numbers have different bits.
pub proof fn lemma_bits64_injective(x: i64, y: i64)
    requires
        bits64(x) == bits64(y),
    ensures
        x == y,
{
}

/// Different signed numbers have different bits.
pub proof fn lemma_bits32_injective(x: i32, y: i32)
    requires
        bits32(x) == bits32(y),
    ensures
        x == y,
{
}

/// Two byte strings that start with parts of the same length are equal
/// only if the parts are equal and what follows them is equal.
pub proof fn lemma_concat_injective(a: Seq<u8>, b: Seq<u8>, c: Seq<u8>, d: Seq<u8>)
    requires
        a.len() == c.len(),
        a + b == c + d,
    ensures
        a == c,
        b == d,
{
    assert(a =~= (a + b).subrange(0, a.len() as int));
    assert(c =~= (c + d).subrange(0, c.len() as int));
    assert(b =~= (a + b).subrange(a.len() as int, (a + b).len() as int));
    assert(d =~= (c + d).subrange(c.len() as int, (c + d).len() as int));
}

/// A stretch of bytes followed by the stretch that starts where it ends is
/// the stretch over both.
pub proof fn lemma_join(s: Seq<u8>, a: int, b: int, c: int)
    requires
        0 <= a <= b <= c <= s.len(),
    ensures
        s.subrange(a, b) + s.subrange(b, c) == s.subrange(a, c),
{
    assert(s.subrange(a, b) + s.subrange(b, c) =~= s.subrange(a, c));
}

/// A signed number taken as bits and back is the number it was.
pub proof fn lemma_signed_round_trip(v: i32, w: i64)
    ensures
        signed32(bits32(v)) == v,
        signed64(bits64(w)) == w,
{
}

/// Bits taken as a signed number and back are the bits they were.
pub proof fn lemma_bits_round_trip(u: u32, x: u64)
    ensures
        bits32(signed32(u)) == u,
        bits64(signed64(x)) == x,
{
}

/// A variable-length integer takes at least one byte, and at most `k`
/// bytes where the value is below the `k`th power of 128.
pub proof fn lemma_varint_len(v: nat)
    ensures
        varint(v).len() >= 1,
        v < 0x80 ==> varint(v).len() == 1,
        v < 0x4000 ==> varint(v).len() <= 2,
        v < 0x20_0000 ==> varint(v).len() <= 3,
        v < 0x1000_0000 ==> varint(v).len() <= 4,
        v < 0x8_0000_0000 ==> varint(v).len() <= 5,
    decreases v,
{
    if v >= 128 {
        lemma_varint_len(v / 128);
    }
}

/// What `varint` writes, `parse_varint` reads back, whatever follows it.
pub proof fn lemma_varint_round_trip(v: nat, rest: Seq<u8>, limit: nat)
    requires
        varint(v).len() <= limit,
    ensures
        parse_varint(varint(v) + rest, limit) == Some((v, varint(v).len())),
    decreases v,
{
    let s = varint(v) + rest;
    lemma_varint_len(v);
    if v < 128 {
        assert(s[0] == v);
    } else {
        let tail = varint(v / 128);
        assert(s[0] == 128 + v % 128);
        assert(s.drop_first() =~= tail + rest);
        lemma_varint_len(v / 128);
        lemma_varint_round_trip(v / 128, rest, (limit - 1) as nat);
    }
}

/// What `parse_varint` reads is what `varint` writes for the value read.
pub proof fn lemma_parse_varint_canonical(s: Seq<u8>, limit: nat)
    requires
        parse_varint(s, limit) is Some,
    ensures
        ({
            let (v, n) = parse_varint(s, limit)->0;
            &&& 1 <= n <= limit
            &&& n <= s.len()
            &&& s.subrange(0, n as int) == varint(v)
        }),
    decreases limit,
{
    let (v, n) = parse_varint(s, limit)->0;
    if s[0] < 128 {
        assert(s.subrange(0, 1) =~= varint(v));
    } else {
        let t = s.drop_first();
        lemma_parse_varint_canonical(t, (limit - 1) as nat);
        let (high, m) = parse_varint(t, (limit - 1) as nat)->0;
        assert(v / 128 == high && v % 128 == s[0] - 128);
        assert(s.subrange(0, n as int) =~= seq![s[0]] + t.subrange(0, m as int));
    }
}

/// Appends the two bytes of `v`.
pub fn push_u16(out: &mut Vec<u8>, v: u16)
    ensures
        final(out)@ == old(out)@ + le16(v),
{
    out.push((v % 256) as u8);
    out.push((v / 256) as u8);
    assert(out@ =~= old(out)@ + le16(v));
}

/// Appends the four bytes of `v`.
pub fn push_u32(out: &mut Vec<u8>, v: u32)
    ensures
        final(out)@ == old(out)@ + le32(v),
{
    out.push((v % 256) as u8);
    out.push((v / 256 % 256) as u8);
    out.push((v / 65536 % 256) as u8);
    out.push((v / 16777216) as u8);
    assert(out@ =~= old(out)@ + le32(v));
}

/// Appends the eight bytes of `v`.
pub fn push_u64(out: &mut Vec<u8>, v: u64)
    ensures
        final(out)@ == old(out)@ + le64(v),
{
    push_u32(out, (v % 0x1_0000_0000) as u32);
    push_u32(out, (v / 0x1_0000_0000) as u32);
    assert(out@ =~= old(out)@ + le64(v));
}

/// Appends the four bytes of the signed number `v`.
pub fn push_i32(out: &mut Vec<u8>, v: i32)
    ensures
        final(out)@ == old(out)@ + le32(bits32(v)),
{
    let u: u32 = if v >= 0 {
        v as u32
    } else {
        (v as i64 + 0x1_0000_0000) as u32
    };
    push_u32(out, u);
}

/// Appends the eight bytes of the signed number `v`.
pub fn push_i64(out: &mut Vec<u8>, v: i64)
    ensures
        final(out)@ == old(out)@ + le64(bits64(v)),
{
    let u: u64 = if v >= 0 {
        v as u64
    } else {
        (v as i128 + 0x1_0000_0000_0000_0000) as u64
    };
    push_u64(out, u);
}

/// Appends all of `bytes`.
pub fn push_bytes(out: &mut Vec<u8>, bytes: &[u8])
    ensures
        final(out)@ == old(out)@ + bytes@,
{
    let mut i: usize = 0;
    while i < bytes.len()
        invariant
            i <= bytes.len(),
            out@ == old(out)@ + bytes@.subrange(0, i as int),
        decreases bytes.len() - i,
    {
        out.push(bytes[i]);
        i += 1;
        assert(out@ =~= old(out)@ + bytes@.subrange(0, i as int));
    }
    assert(bytes@.subrange(0, i as int) =~= bytes@);
}

/// Appends `v` as a variable-length integer.
pub fn push_varint(out: &mut Vec<u8>, v: u64)
    ensures
        final(out)@ == old(out)@ + varint(v as nat),
{
    let mut rest: u64 = v;
    let ghost mut written: Seq<u8> = Seq::empty();
    while rest >= 128
        invariant
            out@ == old(out)@ + written,
            written + varint(rest as nat) == varint(v as nat),
        decreases rest,
    {
        let byte: u8 = (128 + rest % 128) as u8;
        out.push(byte);
        proof {
            assert(written.push(byte) + varint((rest / 128) as nat) =~= written + varint(
                rest as nat,
            ));
            written = written.push(byte);
        }
        rest = rest / 128;
        assert(out@ =~= old(out)@ + written);
    }
    out.push(rest as u8);
    assert(out@ =~= old(out)@ + (written + varint(rest as nat)));
}

/// The number in the two bytes from `at` on.
pub fn read_u16(bytes: &[u8], at: usize) -> (v: u16)
    requires
        at + 2 <= bytes.len(),
    ensures
        v == value16(bytes@, at as int),
{
    bytes[at] as u16 + 256 * (bytes[at + 1] as u16)
}

/// The number in the four bytes from `at` on.
pub fn read_u32(bytes: &[u8], at: usize) -> (v: u32)
    requires
        at + 4 <= bytes.len(),
    ensures
        v == value32(bytes@, at as int),
{
    bytes[at] as u32 + 256 * (bytes[at + 1] as u32) + 65536 * (bytes[at + 2] as u32) + 16777216 * (
    bytes[at + 3] as u32)
}

/// The number in the eight bytes from `at` on.
pub fn read_u64(bytes: &[u8], at: usize) -> (v: u64)
    requires
        at + 8 <= bytes.len(),
    ensures
        v == value64(bytes@, at as int),
{
    read_u32(bytes, at) as u64 + 0x1_0000_0000 * (read_u32(bytes, at + 4) as u64)
}

/// The signed number in the four bytes from `at` on.
pub fn read_i32(bytes: &[u8], at: usize) -> (v: i32)
    requires
        at + 4 <= bytes.len(),
    ensures
        v == signed32(value32(bytes@, at as int)),
{
    let u: u32 = read_u32(bytes, at);
    if u < 0x8000_0000 {
        u as i32
    } else {
        (u as i64 - 0x1_0000_0000) as i32
    }
}

/// The signed number in the eight bytes from `at` on.
pub fn read_i64(bytes: &[u8], at: usize) -> (v: i64)
    requires
        at + 8 <= bytes.len(),
    ensures
        v == signed64(value64(bytes@, at as int)),
{
    let u: u64 = read_u64(bytes, at);
    if u < 0x8000_0000_0000_0000 {
        u as i64
    } else {
        (u as i128 - 0x1_0000_0000_0000_0000) as i64
    }
}

/// One more than the largest value that a variable-length integer of
/// `limit` bytes can hold.
pub open spec fn varint_bound(limit: nat) -> nat
    decreases limit,
{
    if limit == 0 {
        1
    } else {
        128 * varint_bound((limit - 1) as nat)
    }
}

/// What `parse_varint` reads in `limit` bytes is below `varint_bound(limit)`.
pub proof fn lemma_parse_varint_bound(s: Seq<u8>, limit: nat)
    ensures
        parse_varint(s, limit) matches Some((v, n)) ==> v < varint_bound(limit) && 1 <= n <= limit
            && n <= s.len(),
        limit <= 9 ==> varint_bound(limit) <= 0x8000_0000_0000_0000,
        varint_bound(limit) >= 1,
    decreases limit,
{
    if limit > 0 {
        lemma_parse_varint_bound(s.drop_first(), (limit - 1) as nat);
    }
    if limit <= 9 {
        reveal_with_fuel(varint_bound, 10);
    }
}

/// Reads a variable-length integer of at most `limit` bytes (at most 9)
/// that starts at `at`: the value and the number of bytes it takes.
pub fn read_varint(bytes: &[u8], at: usize, limit: usize) -> (r: Option<(u64, usize)>)
    requires
        at <= bytes.len(),
        limit <= 9,
    ensures
        match r {
            Some((v, n)) => parse_varint(bytes@.skip(at as int), limit as nat) == Some(
                (v as nat, n as nat),
            ) && at + n <= bytes.len() && 1 <= n <= limit,
            None => parse_varint(bytes@.skip(at as int), limit as nat) is None,
        },
    decreases limit,
{
    if limit == 0 || at >= bytes.len() {
        return None;
    }
    let byte: u8 = bytes[at];
    if byte < 128 {
        return Some((byte as u64, 1));
    }
    proof {
        assert(bytes@.skip(at as int).drop_first() =~= bytes@.skip(at as int + 1));
        lemma_parse_varint_bound(bytes@.skip(at as int + 1), (limit - 1) as nat);
        reveal_with_fuel(varint_bound, 10);
    }
    match read_varint(bytes, at + 1, limit - 1) {
        Some((high, n)) => {
            if high == 0 {
                None
            } else {
                Some(((byte - 128) as u64 + 128 * high, n + 1))
            }
        },
        None => None,
    }
}

} // verus!
