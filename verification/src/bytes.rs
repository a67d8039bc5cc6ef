//! Small helpers on byte buffers.
use vstd::prelude::*;

verus! {

/// Appends the bytes of `data` to `out`.
pub fn append_bytes(out: &mut Vec<u8>, data: &[u8])
    ensures
        final(out)@ == old(out)@ + data@,
{
    let ghost start = out@;
    let mut i: usize = 0;
    while i < data.len()
        invariant
            i <= data@.len(),
            out@ == start + data@.subrange(0, i as int),
        decreases data@.len() - i,
    {
        out.push(data[i]);
        i = i + 1;
        assert(out@ =~= start + data@.subrange(0, i as int));
    }
    assert(data@.subrange(0, i as int) =~= data@);
}

/// Copies the bytes of `data` from position `from` on into a new buffer.
pub fn copy_from(data: &[u8], from: usize) -> (out: Vec<u8>)
    requires
        from <= data@.len(),
    ensures
        out@ == data@.subrange(from as int, data@.len() as int),
{
    let mut out: Vec<u8> = Vec::new();
    let rest = &data[from..data.len()];
    append_bytes(&mut out, rest);
    assert(out@ =~= data@.subrange(from as int, data@.len() as int));
    out
}

} // verus!
