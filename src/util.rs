use vstd::prelude::*;

use crate::tdms_parse_error::TdmsParseError;

verus! {

/// A forward cursor over the bytes of a file.
pub struct ByteReader {
    pub data: Vec<u8>,
    pub pos: usize,
}

impl ByteReader {
    pub fn new(data: Vec<u8>) -> (r: ByteReader)
        ensures
            r.data@ == data@,
            r.pos == 0,
    {
        ByteReader { data, pos: 0 }
    }
}

/// `n` bytes are available at position `p`.
pub open spec fn available(d: Seq<u8>, p: int, n: int) -> bool {
    0 <= p && 0 <= n && p + n <= d.len()
}

/// What a decoding step that started at some position gave: the value and the
/// position after it, or the error.
pub open spec fn outcome<T>(r: Result<T, TdmsParseError>, pos: usize) -> Result<(T, int), TdmsParseError> {
    match r {
        Ok(v) => Ok((v, pos as int)),
        Err(e) => Err(e),
    }
}

/// The value of four bytes in the given byte order.
pub open spec fn u32_of(b: Seq<u8>, big: bool) -> u32 {
    if big {
        (b[0] as int * 0x100_0000 + b[1] as int * 0x1_0000 + b[2] as int * 0x100 + b[3] as int) as u32
    } else {
        (b[3] as int * 0x100_0000 + b[2] as int * 0x1_0000 + b[1] as int * 0x100 + b[0] as int) as u32
    }
}

/// The value of eight bytes, most significant first.
pub open spec fn be_u64_of(b: Seq<u8>) -> int {
    ((((((b[0] as int * 0x100 + b[1] as int) * 0x100 + b[2] as int) * 0x100 + b[3] as int) * 0x100
        + b[4] as int) * 0x100 + b[5] as int) * 0x100 + b[6] as int) * 0x100 + b[7] as int
}

/// The value of eight bytes in the given byte order.
pub open spec fn u64_of(b: Seq<u8>, big: bool) -> u64 {
    if big {
        be_u64_of(b) as u64
    } else {
        be_u64_of(seq![b[7], b[6], b[5], b[4], b[3], b[2], b[1], b[0]]) as u64
    }
}

/// The two's complement reading of a 64-bit pattern.
pub open spec fn i64_of_bits(x: u64) -> i64 {
    if x < 0x8000_0000_0000_0000 {
        x as i64
    } else {
        (x as int - 0x1_0000_0000_0000_0000) as i64
    }
}

/// A unified timestamp with its two flag bits cleared.
pub open spec fn unified_timestamp(x: u64) -> u64 {
    x & 0x3FFF_FFFF_FFFF_FFFF
}

/// Bytes read one character each (code points 0 to 255).
pub open spec fn latin1(b: Seq<u8>) -> Seq<char> {
    b.map_values(|x: u8| x as char)
}

pub open spec fn dec_bytes(d: Seq<u8>, p: int, n: int) -> Result<(Seq<u8>, int), TdmsParseError> {
    if available(d, p, n) {
        Ok((d.subrange(p, p + n), p + n))
    } else {
        Err(TdmsParseError::UnexpectedEndOfData)
    }
}

pub open spec fn dec_u32(d: Seq<u8>, p: int, big: bool) -> Result<(u32, int), TdmsParseError> {
    if available(d, p, 4) {
        Ok((u32_of(d.subrange(p, p + 4), big), p + 4))
    } else {
        Err(TdmsParseError::UnexpectedEndOfData)
    }
}

pub open spec fn dec_u64(d: Seq<u8>, p: int, big: bool) -> Result<(u64, int), TdmsParseError> {
    if available(d, p, 8) {
        Ok((u64_of(d.subrange(p, p + 8), big), p + 8))
    } else {
        Err(TdmsParseError::UnexpectedEndOfData)
    }
}

pub open spec fn dec_i64(d: Seq<u8>, p: int, big: bool) -> Result<(i64, int), TdmsParseError> {
    match dec_u64(d, p, big) {
        Ok((x, q)) => Ok((i64_of_bits(x), q)),
        Err(e) => Err(e),
    }
}

pub open spec fn dec_chars(d: Seq<u8>, p: int, n: int) -> Result<(Seq<char>, int), TdmsParseError> {
    match dec_bytes(d, p, n) {
        Ok((b, q)) => Ok((latin1(b), q)),
        Err(e) => Err(e),
    }
}

pub open spec fn dec_unified_timestamp(d: Seq<u8>, p: int, big: bool) -> Result<(u64, int), TdmsParseError> {
    match dec_u64(d, p, big) {
        Ok((x, q)) => Ok((unified_timestamp(x), q)),
        Err(e) => Err(e),
    }
}

/// Relies on `String::push`: the character is appended at the end.
#[verifier::external_body]
pub(crate) fn push_char(s: &mut String, c: char)
    ensures
        final(s)@ == old(s)@.push(c),
{
    s.push(c)
}

/// Takes up to `size` bytes from the reader: fewer where the data ends first.
pub fn load_part(reader: &mut ByteReader, size: usize) -> (r: Vec<u8>)
    ensures
        final(reader).data@ == old(reader).data@,
        old(reader).pos <= old(reader).data@.len() ==> {
            let end = if size <= old(reader).data@.len() - old(reader).pos {
                old(reader).pos + size
            } else {
                old(reader).data@.len() as int
            };
            &&& r@ == old(reader).data@.subrange(old(reader).pos as int, end)
            &&& final(reader).pos == end
        },
        old(reader).pos > old(reader).data@.len() ==> r@.len() == 0 && final(reader).pos == old(reader).pos,
{
    let len = reader.data.len();
    let mut out: Vec<u8> = Vec::new();
    if reader.pos > len {
        return out;
    }
    let start = reader.pos;
    let end = if size <= len - start { start + size } else { len };
    let mut i: usize = start;
    while i < end
        invariant
            start <= i <= end <= len,
            len == reader.data@.len(),
            out@ == reader.data@.subrange(start as int, i as int),
        decreases end - i,
    {
        out.push(reader.data[i]);
        assert(out@ =~= reader.data@.subrange(start as int, i + 1));
        i = i + 1;
    }
    reader.pos = end;
    out
}

pub(crate) fn take4(reader: &mut ByteReader) -> (r: Result<[u8; 4], TdmsParseError>)
    ensures
        final(reader).data@ == old(reader).data@,
        match dec_bytes(old(reader).data@, old(reader).pos as int, 4) {
            Ok((b, q)) => r.is_ok() && r.unwrap()@ == b && final(reader).pos == q,
            Err(e) => r == Err::<[u8; 4], TdmsParseError>(e) && final(reader).pos == old(reader).pos,
        },
{
    let p = reader.pos;
    if p > reader.data.len() || reader.data.len() - p < 4 {
        return Err(TdmsParseError::UnexpectedEndOfData);
    }
    let b = [reader.data[p], reader.data[p + 1], reader.data[p + 2], reader.data[p + 3]];
    reader.pos = p + 4;
    assert(b@ =~= reader.data@.subrange(p as int, p + 4));
    Ok(b)
}

pub(crate) fn take8(reader: &mut ByteReader) -> (r: Result<[u8; 8], TdmsParseError>)
    ensures
        final(reader).data@ == old(reader).data@,
        match dec_bytes(old(reader).data@, old(reader).pos as int, 8) {
            Ok((b, q)) => r.is_ok() && r.unwrap()@ == b && final(reader).pos == q,
            Err(e) => r == Err::<[u8; 8], TdmsParseError>(e) && final(reader).pos == old(reader).pos,
        },
{
    let p = reader.pos;
    if p > reader.data.len() || reader.data.len() - p < 8 {
        return Err(TdmsParseError::UnexpectedEndOfData);
    }
    let d = &reader.data;
    let b = [d[p], d[p + 1], d[p + 2], d[p + 3], d[p + 4], d[p + 5], d[p + 6], d[p + 7]];
    reader.pos = p + 8;
    assert(b@ =~= reader.data@.subrange(p as int, p + 8));
    Ok(b)
}

/// The value of four bytes in the given byte order.
pub fn u32_from_bytes(b: [u8; 4], big: bool) -> (r: u32)
    ensures
        r == u32_of(b@, big),
{
    let (x0, x1, x2, x3) = if big { (b[0], b[1], b[2], b[3]) } else { (b[3], b[2], b[1], b[0]) };
    (x0 as u32) * 0x100_0000 + (x1 as u32) * 0x1_0000 + (x2 as u32) * 0x100 + x3 as u32
}

/// The value of eight bytes in the given byte order.
pub fn u64_from_bytes(b: [u8; 8], big: bool) -> (r: u64)
    ensures
        r == u64_of(b@, big),
{
    let o: [u8; 8] = if big { b } else { [b[7], b[6], b[5], b[4], b[3], b[2], b[1], b[0]] };
    assert(!big ==> o@ =~= seq![b@[7], b@[6], b@[5], b@[4], b@[3], b@[2], b@[1], b@[0]]);
    let mut v: u64 = 0;
    let mut i: usize = 0;
    while i < 8
        invariant
            i <= 8,
            v as int == be_prefix(o@, i as int),
            v as int <= pow256(i as int) - 1,
        decreases 8 - i,
    {
        proof { reveal_with_fuel(pow256, 9); }
        v = v * 0x100 + o[i] as u64;
        i = i + 1;
    }
    proof { reveal_with_fuel(be_prefix, 9); }
    v
}

spec fn pow256(n: int) -> int
    decreases n,
{
    if n <= 0 { 1 } else { 256 * pow256(n - 1) }
}

spec fn be_prefix(b: Seq<u8>, n: int) -> int
    decreases n,
{
    if n <= 0 { 0 } else { be_prefix(b, n - 1) * 0x100 + b[n - 1] as int }
}

/// Reads a 32-bit unsigned integer in the segment's byte order.
pub fn read_u32(reader: &mut ByteReader, is_toc_big_endian: bool) -> (r: Result<u32, TdmsParseError>)
    ensures
        final(reader).data@ == old(reader).data@,
        outcome(r, final(reader).pos) == dec_u32(old(reader).data@, old(reader).pos as int, is_toc_big_endian),
{
    let b = take4(reader)?;
    Ok(u32_from_bytes(b, is_toc_big_endian))
}

/// Reads a 64-bit unsigned integer in the segment's byte order.
pub fn read_u64(reader: &mut ByteReader, is_toc_big_endian: bool) -> (r: Result<u64, TdmsParseError>)
    ensures
        final(reader).data@ == old(reader).data@,
        outcome(r, final(reader).pos) == dec_u64(old(reader).data@, old(reader).pos as int, is_toc_big_endian),
{
    let b = take8(reader)?;
    Ok(u64_from_bytes(b, is_toc_big_endian))
}

/// The two's complement reading of a 64-bit pattern.
pub fn i64_from_bits(x: u64) -> (r: i64)
    ensures
        r == i64_of_bits(x),
{
    if x < 0x8000_0000_0000_0000 {
        x as i64
    } else {
        -((u64::MAX - x) as i64) - 1
    }
}

/// Reads a 64-bit signed integer in the segment's byte order.
pub fn read_i64(reader: &mut ByteReader, is_toc_big_endian: bool) -> (r: Result<i64, TdmsParseError>)
    ensures
        final(reader).data@ == old(reader).data@,
        outcome(r, final(reader).pos) == dec_i64(old(reader).data@, old(reader).pos as int, is_toc_big_endian),
{
    let x = read_u64(reader, is_toc_big_endian)?;
    Ok(i64_from_bits(x))
}

/// Reads `size` bytes as a string of as many characters, each byte its own code point.
pub fn read_string(reader: &mut ByteReader, size: usize) -> (r: Result<String, TdmsParseError>)
    ensures
        final(reader).data@ == old(reader).data@,
        match r {
            Ok(s) => dec_chars(old(reader).data@, old(reader).pos as int, size as int) == Ok::<(Seq<char>, int), TdmsParseError>((s@, final(reader).pos as int)),
            Err(e) => dec_chars(old(reader).data@, old(reader).pos as int, size as int) == Err::<(Seq<char>, int), TdmsParseError>(e),
        },
{
    let p = reader.pos;
    let len = reader.data.len();
    if p > len || len - p < size {
        return Err(TdmsParseError::UnexpectedEndOfData);
    }
    let mut s = String::new();
    let mut i: usize = p;
    while i < p + size
        invariant
            p <= i <= p + size <= len,
            len == reader.data@.len(),
            s@ == latin1(reader.data@.subrange(p as int, i as int)),
        decreases p + size - i,
    {
        let c = reader.data[i] as char;
        push_char(&mut s, c);
        assert(latin1(reader.data@.subrange(p as int, i + 1)) =~= latin1(reader.data@.subrange(p as int, i as int)).push(c));
        i = i + 1;
    }
    reader.pos = p + size;
    Ok(s)
}

/// Reads a unified timestamp: a 64-bit value whose two top bits are flags, cleared here.
pub fn read_unified_timestamp(reader: &mut ByteReader, is_toc_big_endian: bool) -> (r: Result<u64, TdmsParseError>)
    ensures
        final(reader).data@ == old(reader).data@,
        outcome(r, final(reader).pos) == dec_unified_timestamp(old(reader).data@, old(reader).pos as int, is_toc_big_endian),
{
    let x = read_u64(reader, is_toc_big_endian)?;
    Ok(x & 0x3FFF_FFFF_FFFF_FFFF)
}

/// Clearing the flag bits of a unified timestamp clears exactly the two top bits
/// and leaves every other bit as it was.
pub proof fn lemma_unified_timestamp_mask(x: u64)
    ensures
        unified_timestamp(x) == x & !(1u64 << 63) & !(1u64 << 62),
        unified_timestamp(x) & 0xC000_0000_0000_0000 == 0,
        unified_timestamp(x) ^ x == x & 0xC000_0000_0000_0000,
        x & 0xC000_0000_0000_0000 == 0xC000_0000_0000_0000 ==> unified_timestamp(x) == x - 0xC000_0000_0000_0000,
{
    assert(x & 0x3FFF_FFFF_FFFF_FFFF == x & !(1u64 << 63) & !(1u64 << 62)) by (bit_vector);
    assert((x & 0x3FFF_FFFF_FFFF_FFFF) & 0xC000_0000_0000_0000 == 0) by (bit_vector);
    assert((x & 0x3FFF_FFFF_FFFF_FFFF) ^ x == x & 0xC000_0000_0000_0000) by (bit_vector);
    assert(x & 0xC000_0000_0000_0000 == 0xC000_0000_0000_0000 ==> x & 0x3FFF_FFFF_FFFF_FFFF == (x - 0xC000_0000_0000_0000) as u64) by (bit_vector);
    if x & 0xC000_0000_0000_0000 == 0xC000_0000_0000_0000 {
        assert(x >= 0xC000_0000_0000_0000) by (bit_vector)
            requires x & 0xC000_0000_0000_0000 == 0xC000_0000_0000_0000;
    }
}

} // verus!
