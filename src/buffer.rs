//! Copying bytes into a caller-provided buffer.
use vstd::prelude::*;

verus! {

/// The buffer after `data` was written at its start; the bytes past the
/// written prefix keep their old values.
pub open spec fn written(before: Seq<u8>, data: Seq<u8>) -> Seq<u8> {
    data + before.subrange(data.len() as int, before.len() as int)
}

/// Write `data` at the start of `buffer`, touching nothing past it.
pub fn copy_into(buffer: &mut [u8], data: &[u8])
    requires
        data@.len() <= old(buffer)@.len(),
    ensures
        final(buffer)@ == written(old(buffer)@, data@),
{
    let n = data.len();
    let mut i: usize = 0;
    while i < n
        invariant
            n == data@.len(),
            i <= n,
            n <= buffer@.len(),
            buffer@.len() == old(buffer)@.len(),
            forall|j: int| 0 <= j < i ==> buffer@[j] == data@[j],
            forall|j: int| i <= j < buffer@.len() ==> buffer@[j] == old(buffer)@[j],
        decreases n - i,
    {
        buffer[i] = data[i];
        i = i + 1;
    }
    assert(buffer@ =~= written(old(buffer)@, data@));
}

} // verus!
