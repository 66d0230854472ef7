use vstd::prelude::*;

verus! {

/// The number that eight bytes spell in little-endian order: the first byte
/// counts once, each following byte 256 times as much as the one before.
pub open spec fn le_value(s: Seq<u8>) -> int
    recommends
        s.len() == 8,
{
    s[0] + 256 * (s[1] + 256 * (s[2] + 256 * (s[3] + 256 * (s[4] + 256 * (s[5] + 256 * (s[6]
        + 256 * s[7]))))))
}

/// `le_value` as a 64-bit number; eight bytes never spell more.
pub open spec fn le_u64(s: Seq<u8>) -> u64
    recommends
        s.len() == 8,
{
    le_value(s) as u64
}

/// The eight bytes that spell `x` in little-endian order.
pub open spec fn le_bytes(x: u64) -> Seq<u8> {
    let q1 = x / 256;
    let q2 = q1 / 256;
    let q3 = q2 / 256;
    let q4 = q3 / 256;
    let q5 = q4 / 256;
    let q6 = q5 / 256;
    let q7 = q6 / 256;
    seq![
        (x % 256) as u8,
        (q1 % 256) as u8,
        (q2 % 256) as u8,
        (q3 % 256) as u8,
        (q4 % 256) as u8,
        (q5 % 256) as u8,
        (q6 % 256) as u8,
        (q7 % 256) as u8,
    ]
}

/// Eight bytes spell a number below 2^64.
pub proof fn lemma_le_value_fits(s: Seq<u8>)
    requires
        s.len() == 8,
    ensures
        0 <= le_value(s) <= u64::MAX,
        le_u64(s) == le_value(s),
{
}

/// Reading back the bytes of a number gives the number.
pub proof fn lemma_le_round_trip(x: u64)
    ensures
        le_bytes(x).len() == 8,
        le_u64(le_bytes(x)) == x,
{
    let q1 = x / 256;
    let q2 = q1 / 256;
    let q3 = q2 / 256;
    let q4 = q3 / 256;
    let q5 = q4 / 256;
    let q6 = q5 / 256;
    let q7 = q6 / 256;
    assert(q7 < 256);
    let s = le_bytes(x);
    assert(s[0] == x % 256);
    assert(s[7] == q7);
    assert(q6 == s[6] + 256 * s[7]);
    assert(q5 == s[5] + 256 * q6);
    assert(q4 == s[4] + 256 * q5);
    assert(q3 == s[3] + 256 * q4);
    assert(q2 == s[2] + 256 * q3);
    assert(q1 == s[1] + 256 * q2);
    assert(x == s[0] + 256 * q1);
}

/// The little-endian number stored in the eight bytes of `src` that start at `at`.
pub fn read_le_u64(src: &[u8], at: usize) -> (value: u64)
    requires
        at + 8 <= src@.len(),
    ensures
        value == le_u64(src@.subrange(at as int, at + 8)),
{
    let ghost s = src@.subrange(at as int, at + 8);
    proof {
        lemma_le_value_fits(s);
    }
    let len: usize = src.len();
    let mut value: u64 = 0;
    let mut i: usize = 8;
    while i > 0
        invariant
            i <= 8,
            at + 8 <= len,
            len == src@.len(),
            s == src@.subrange(at as int, at + 8),
            i == 8 ==> value == 0,
            i == 7 ==> value == s[7],
            i == 6 ==> value == s[6] + 256 * s[7],
            i == 5 ==> value == s[5] + 256 * (s[6] + 256 * s[7]),
            i == 4 ==> value == s[4] + 256 * (s[5] + 256 * (s[6] + 256 * s[7])),
            i == 3 ==> value == s[3] + 256 * (s[4] + 256 * (s[5] + 256 * (s[6] + 256 * s[7]))),
            i == 2 ==> value == s[2] + 256 * (s[3] + 256 * (s[4] + 256 * (s[5] + 256 * (s[6] + 256
                * s[7])))),
            i == 1 ==> value == s[1] + 256 * (s[2] + 256 * (s[3] + 256 * (s[4] + 256 * (s[5] + 256
                * (s[6] + 256 * s[7]))))),
            i == 0 ==> value == le_value(s),
        decreases i,
    {
        i -= 1;
        let byte: u64 = src[at + i] as u64;
        assert(byte == s[i as int]);
        value = value * 256 + byte;
    }
    value
}

/// Appends the eight little-endian bytes of `x` to `dst`.
pub fn write_le_u64(x: u64, dst: &mut Vec<u8>)
    ensures
        final(dst)@ == old(dst)@ + le_bytes(x),
{
    let ghost before = dst@;
    let q1: u64 = x / 256;
    let q2: u64 = q1 / 256;
    let q3: u64 = q2 / 256;
    let q4: u64 = q3 / 256;
    let q5: u64 = q4 / 256;
    let q6: u64 = q5 / 256;
    let q7: u64 = q6 / 256;
    dst.push((x % 256) as u8);
    dst.push((q1 % 256) as u8);
    dst.push((q2 % 256) as u8);
    dst.push((q3 % 256) as u8);
    dst.push((q4 % 256) as u8);
    dst.push((q5 % 256) as u8);
    dst.push((q6 % 256) as u8);
    dst.push((q7 % 256) as u8);
    assert(dst@ =~= before + le_bytes(x));
}

} // verus!
