//! Byte-level helpers: bounded capture of transferred data, reinterpreting
//! signed bytes, joining byte strings, and decimal text.

use vstd::prelude::*;

verus! {

/// The most bytes of one transfer that are looked at. A longer transfer is
/// cut to this length, and what is cut off is never parsed.
pub const CAPTURE_LEN: usize = 8192;

/// The snapshot taken of a transfer of `data`: its first `CAPTURE_LEN` bytes.
pub open spec fn captured(data: Seq<u8>) -> Seq<u8> {
    if data.len() <= CAPTURE_LEN {
        data
    } else {
        data.take(CAPTURE_LEN as int)
    }
}

/// Appends `src` to `dst`.
pub fn append_bytes(dst: &mut Vec<u8>, src: &[u8])
    ensures
        final(dst)@ == old(dst)@ + src@,
{
    let mut i: usize = 0;
    while i < src.len()
        invariant
            i <= src.len(),
            dst@ == old(dst)@ + src@.take(i as int),
        decreases src.len() - i,
    {
        dst.push(src[i]);
        i = i + 1;
    }
}

/// Copies the part of `data` from `from` to `to` into a buffer of its own.
pub fn copy_range(data: &[u8], from: usize, to: usize) -> (out: Vec<u8>)
    requires
        from <= to <= data.len(),
    ensures
        out@ == data@.subrange(from as int, to as int),
{
    let mut out: Vec<u8> = Vec::new();
    let mut i: usize = from;
    while i < to
        invariant
            from <= i <= to <= data.len(),
            out@ == data@.subrange(from as int, i as int),
        decreases to - i,
    {
        out.push(data[i]);
        i = i + 1;
    }
    out
}

/// Takes the snapshot of one transfer: a copy of `data`, cut to
/// `CAPTURE_LEN` bytes if it is longer.
pub fn capture(data: &[u8]) -> (snapshot: Vec<u8>)
    ensures
        snapshot@ == captured(data@),
        snapshot@.len() <= CAPTURE_LEN,
{
    let kept: usize = if data.len() <= CAPTURE_LEN {
        data.len()
    } else {
        CAPTURE_LEN
    };
    let snapshot = copy_range(data, 0, kept);
    snapshot
}

/// The unsigned byte with the same bit pattern as `b`.
pub open spec fn unsigned(b: i8) -> u8 {
    if b >= 0 {
        b as u8
    } else {
        (b + 0x100) as u8
    }
}

/// Reads a buffer of signed bytes as unsigned bytes, bit pattern for bit
/// pattern.
pub fn vec_i8_into_u8(v: Vec<i8>) -> (out: Vec<u8>)
    ensures
        out@.len() == v@.len(),
        forall|i: int| 0 <= i < v@.len() ==> out@[i] == unsigned(#[trigger] v@[i]),
{
    let mut out: Vec<u8> = Vec::new();
    let mut i: usize = 0;
    while i < v.len()
        invariant
            i <= v.len(),
            out@.len() == i,
            forall|j: int| 0 <= j < i ==> out@[j] == unsigned(#[trigger] v@[j]),
        decreases v.len() - i,
    {
        let b: i8 = v[i];
        let u: u8 = if b >= 0 {
            b as u8
        } else {
            (b as i16 + 0x100) as u8
        };
        out.push(u);
        i = i + 1;
    }
    out
}

/// The ASCII digit for `d`.
pub open spec fn digit(d: nat) -> u8
    recommends
        d < 10,
{
    (0x30 + d) as u8
}

/// The decimal text of `n`, without sign or leading zeros.
pub open spec fn decimal(n: nat) -> Seq<u8>
    decreases n,
{
    if n < 10 {
        seq![digit(n)]
    } else {
        decimal(n / 10).push(digit(n % 10))
    }
}

/// Writes `n` in decimal.
pub fn decimal_text(n: u16) -> (text: Vec<u8>)
    ensures
        text@ == decimal(n as nat),
    decreases n,
{
    let mut text: Vec<u8> = Vec::new();
    if n >= 10 {
        text = decimal_text(n / 10);
    }
    text.push(0x30u8 + (n % 10) as u8);
    text
}

} // verus!
