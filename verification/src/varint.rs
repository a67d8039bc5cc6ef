//! Variable-length (LEB128) unsigned 32-bit integers as used by the Bedrock
//! protocol for batch lengths and packet headers.
use vstd::prelude::*;

verus! {

/// The bytes that encode `v`: seven bits per byte, least significant group
/// first, the high bit set on every byte but the last.
pub open spec fn var_u32_bytes(v: nat) -> Seq<u8>
    decreases v,
{
    if v < 128 {
        seq![v as u8]
    } else {
        seq![(v % 128 + 128) as u8] + var_u32_bytes(v / 128)
    }
}

/// `128` raised to the power `n`: every value below it fits in `n` groups.
pub open spec fn var_bound(n: nat) -> nat
    decreases n,
{
    if n == 0 {
        1
    } else {
        128 * var_bound((n - 1) as nat)
    }
}

/// Decodes a variable-length integer at the start of `s`, reading at most
/// `max` bytes. Gives the (unbounded) value and the number of bytes read,
/// or `None` when the input ends or the limit is reached before a byte
/// without the high bit.
pub open spec fn var_u32_decode(s: Seq<u8>, max: nat) -> Option<(nat, nat)>
    decreases max,
{
    if max == 0 || s.len() == 0 {
        None
    } else if s[0] < 128 {
        Some((s[0] as nat, 1nat))
    } else {
        match var_u32_decode(s.drop_first(), (max - 1) as nat) {
            Some((v, n)) => Some(((s[0] - 128) as nat + 128 * v, n + 1)),
            None => None,
        }
    }
}

/// The largest number of bytes a 32-bit variable-length integer may take.
pub const MAX_VAR_U32_LEN: usize = 5;

/// What reading a 32-bit variable-length integer from `s` gives: the value
/// (truncated to 32 bits) and the number of bytes consumed.
pub open spec fn spec_read_var_u32(s: Seq<u8>) -> Option<(u32, usize)> {
    match var_u32_decode(s, 5) {
        Some((v, n)) => Some(((v % 0x1_0000_0000) as u32, n as usize)),
        None => None,
    }
}

proof fn lemma_var_bound_values()
    ensures
        var_bound(1) == 128,
        var_bound(4) == 268435456,
        var_bound(5) == 34359738368,
{
    reveal_with_fuel(var_bound, 6);
}

/// Appends the variable-length encoding of `value` to `out`.
pub fn write_var_u32(out: &mut Vec<u8>, value: u32)
    ensures
        final(out)@ == old(out)@ + var_u32_bytes(value as nat),
{
    let ghost start = out@;
    let mut rest: u32 = value;
    while rest >= 128
        invariant
            start + var_u32_bytes(value as nat) == out@ + var_u32_bytes(rest as nat),
        decreases rest,
    {
        let ghost before = out@;
        out.push((rest % 128 + 128) as u8);
        assert(before + var_u32_bytes(rest as nat) =~= out@ + var_u32_bytes((rest / 128) as nat));
        rest = rest / 128;
    }
    let ghost before = out@;
    out.push(rest as u8);
    assert(before + var_u32_bytes(rest as nat) =~= out@);
}

/// Encodes `value` into a fresh buffer.
pub fn encode_var_u32(value: u32) -> (out: Vec<u8>)
    ensures
        out@ == var_u32_bytes(value as nat),
{
    let mut out: Vec<u8> = Vec::new();
    write_var_u32(&mut out, value);
    assert(out@ =~= var_u32_bytes(value as nat));
    out
}

fn decode_from(s: &[u8], pos: usize, max: usize) -> (res: Option<(u64, usize)>)
    requires
        pos <= s@.len(),
        max <= 5,
    ensures
        match var_u32_decode(s@.subrange(pos as int, s@.len() as int), max as nat) {
            Some((v, n)) => res == Some((v as u64, n as usize)) && v < var_bound(max as nat) && n <= max,
            None => res is None,
        },
    decreases max,
{
    let ghost rest = s@.subrange(pos as int, s@.len() as int);
    proof {
        lemma_var_bound_values();
    }
    if max == 0 || pos == s.len() {
        return None;
    }
    let b = s[pos];
    if b < 128 {
        proof {
            if max == 1 {
            } else {
                assert(var_bound(max as nat) >= 128) by {
                    lemma_var_bound_monotonic(1, max as nat);
                }
            }
        }
        return Some((b as u64, 1));
    }
    assert(rest.drop_first() =~= s@.subrange(pos + 1, s@.len() as int));
    match decode_from(s, pos + 1, max - 1) {
        Some((v, n)) => {
            proof {
                assert(var_bound(max as nat) == 128 * var_bound((max - 1) as nat));
                lemma_var_bound_monotonic((max - 1) as nat, 4);
            }
            Some(((b - 128) as u64 + 128 * v, n + 1))
        },
        None => None,
    }
}

proof fn lemma_var_bound_monotonic(a: nat, b: nat)
    requires
        a <= b,
    ensures
        var_bound(a) <= var_bound(b),
        var_bound(a) >= 1,
    decreases b,
{
    if a < b {
        lemma_var_bound_monotonic(a, (b - 1) as nat);
    } else if a > 0 {
        lemma_var_bound_monotonic((a - 1) as nat, (a - 1) as nat);
    }
}

/// Reads a variable-length integer from the start of `s`, returning the
/// value and the number of bytes it took, or `None` if the input ends
/// before the integer does or the integer runs past five bytes.
pub fn read_var_u32(s: &[u8]) -> (res: Option<(u32, usize)>)
    ensures
        res == spec_read_var_u32(s@),
{
    assert(s@.subrange(0, s@.len() as int) =~= s@);
    match decode_from(s, 0, 5) {
        Some((v, n)) => {
            assert(v < 34359738368) by {
                lemma_var_bound_values();
            }
            let low: u64 = v % 0x1_0000_0000;
            proof {
                lemma_var_bound_values();
                let dec = var_u32_decode(s@, 5);
                assert(dec is Some);
                let (sv, sn) = dec.unwrap();
                assert(sv == v);
                assert(sn == n);
                assert(low == sv % 0x1_0000_0000);
            }
            Some((low as u32, n))
        },
        None => None,
    }
}

/// The encoding of a value below `var_bound(max)` is at most `max` bytes
/// long, and decoding it (with anything after it) gives the value back.
pub proof fn lemma_decode_encode(v: nat, rest: Seq<u8>, max: nat)
    requires
        max > 0,
        v < var_bound(max),
    ensures
        var_u32_bytes(v).len() <= max,
        var_u32_decode(var_u32_bytes(v) + rest, max) == Some((v, var_u32_bytes(v).len())),
    decreases v,
{
    let s = var_u32_bytes(v) + rest;
    if v < 128 {
        assert(s[0] == v as u8);
    } else {
        let m = (max - 1) as nat;
        assert(var_bound(max) == 128 * var_bound(m));
        if m == 0 {
            assert(var_bound(0) == 1);
        }
        assert(v / 128 < var_bound(m));
        lemma_decode_encode(v / 128, rest, m);
        assert(s.drop_first() =~= var_u32_bytes(v / 128) + rest);
    }
}

/// Law: reading back what `write_var_u32` wrote gives the value and the
/// encoded length, whatever follows the encoding.
pub proof fn lemma_var_u32_roundtrip(v: u32, rest: Seq<u8>)
    ensures
        var_u32_bytes(v as nat).len() <= 5,
        spec_read_var_u32(var_u32_bytes(v as nat) + rest) == Some((v, var_u32_bytes(v as nat).len() as usize)),
{
    lemma_var_bound_values();
    lemma_decode_encode(v as nat, rest, 5);
}

} // verus!
