use vstd::prelude::*;

verus! {

/// The four bytes of `v`, most significant first.
pub open spec fn be_bytes(v: u32) -> Seq<u8> {
    seq![
        (v / 0x100_0000) as u8,
        ((v / 0x1_0000) % 0x100) as u8,
        ((v / 0x100) % 0x100) as u8,
        (v % 0x100) as u8,
    ]
}

/// The number that four bytes stand for, read most significant first.
pub open spec fn be_value(b0: u8, b1: u8, b2: u8, b3: u8) -> int {
    b0 * 0x100_0000 + b1 * 0x1_0000 + b2 * 0x100 + b3
}

/// Splits a `u32` into its big-endian bytes.
pub fn u32_to_be(v: u32) -> (b: [u8; 4])
    ensures
        b@ == be_bytes(v),
{
    let x0: u32 = v >> 24;
    let x1: u32 = (v >> 16) & 0xff;
    let x2: u32 = (v >> 8) & 0xff;
    let x3: u32 = v & 0xff;
    assert(x0 == v / 0x100_0000 && x0 < 0x100) by (bit_vector)
        requires x0 == v >> 24;
    assert(x1 == (v / 0x1_0000) % 0x100 && x1 < 0x100) by (bit_vector)
        requires x1 == (v >> 16) & 0xff;
    assert(x2 == (v / 0x100) % 0x100 && x2 < 0x100) by (bit_vector)
        requires x2 == (v >> 8) & 0xff;
    assert(x3 == v % 0x100 && x3 < 0x100) by (bit_vector)
        requires x3 == v & 0xff;
    let b = [x0 as u8, x1 as u8, x2 as u8, x3 as u8];
    assert(b@ =~= be_bytes(v));
    b
}

/// Joins four big-endian bytes into a `u32`.
pub fn u32_from_be(b0: u8, b1: u8, b2: u8, b3: u8) -> (v: u32)
    ensures
        v == be_value(b0, b1, b2, b3),
{
    let c0 = b0 as u32;
    let c1 = b1 as u32;
    let c2 = b2 as u32;
    let c3 = b3 as u32;
    let v = (c0 << 24) | (c1 << 16) | (c2 << 8) | c3;
    assert(v == c0 * 0x100_0000 + c1 * 0x1_0000 + c2 * 0x100 + c3) by (bit_vector)
        requires
            c0 < 0x100,
            c1 < 0x100,
            c2 < 0x100,
            c3 < 0x100,
            v == (c0 << 24) | (c1 << 16) | (c2 << 8) | c3,
    ;
    v
}

/// Reading back the big-endian bytes of a number gives the number.
pub proof fn lemma_be_value_of_bytes(v: u32)
    ensures
        be_value(be_bytes(v)[0], be_bytes(v)[1], be_bytes(v)[2], be_bytes(v)[3]) == v,
{
    let x0: u32 = v / 0x100_0000;
    let x1: u32 = (v / 0x1_0000) % 0x100;
    let x2: u32 = (v / 0x100) % 0x100;
    let x3: u32 = v % 0x100;
    assert(x0 * 0x100_0000 + x1 * 0x1_0000 + x2 * 0x100 + x3 == v && x0 < 0x100) by (bit_vector)
        requires
            x0 == v / 0x100_0000,
            x1 == (v / 0x1_0000) % 0x100,
            x2 == (v / 0x100) % 0x100,
            x3 == v % 0x100,
    ;
}

/// Any four bytes are the big-endian bytes of the number they stand for.
pub proof fn lemma_be_bytes_of_value(b0: u8, b1: u8, b2: u8, b3: u8)
    ensures
        0 <= be_value(b0, b1, b2, b3) <= u32::MAX,
        be_bytes(be_value(b0, b1, b2, b3) as u32) == seq![b0, b1, b2, b3],
{
    let c0 = b0 as u32;
    let c1 = b1 as u32;
    let c2 = b2 as u32;
    let c3 = b3 as u32;
    assert(c0 * 0x100_0000 + c1 * 0x1_0000 + c2 * 0x100 + c3 <= 0xffff_ffff) by (bit_vector)
        requires
            c0 < 0x100,
            c1 < 0x100,
            c2 < 0x100,
            c3 < 0x100,
    ;
    let v: u32 = (c0 * 0x100_0000 + c1 * 0x1_0000 + c2 * 0x100 + c3) as u32;
    assert(v / 0x100_0000 == c0 && (v / 0x1_0000) % 0x100 == c1 && (v / 0x100) % 0x100 == c2
        && v % 0x100 == c3) by (bit_vector)
        requires
            c0 < 0x100,
            c1 < 0x100,
            c2 < 0x100,
            c3 < 0x100,
            v == (c0 * 0x100_0000 + c1 * 0x1_0000 + c2 * 0x100 + c3) as u32,
    ;
    assert(be_bytes(v) =~= seq![b0, b1, b2, b3]);
}

} // verus!
