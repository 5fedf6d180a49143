//! Byte vectors of a given size used to build benchmark inputs.

use vstd::prelude::*;

verus! {

/// `size` bytes: `prefix`, then `id` repeated.
pub open spec fn spec_vector(prefix: u8, id: u8, size: nat) -> Seq<u8> {
    Seq::new(size, |i: int| if i == 0 { prefix } else { id })
}

/// A vector of `size` bytes whose first byte is `prefix` and whose other bytes
/// are `id`; `size` must not be zero.
pub fn generate_vector(prefix: u8, id: u8, size: u32) -> (v: Vec<u8>)
    requires
        size > 0,
    ensures
        v@ == spec_vector(prefix, id, size as nat),
{
    let mut v: Vec<u8> = Vec::new();
    let mut i: u32 = 0;
    while i < size
        invariant
            0 <= i <= size,
            v@ == spec_vector(prefix, id, i as nat),
        decreases size - i,
    {
        if i == 0 {
            v.push(prefix);
        } else {
            v.push(id);
        }
        i = i + 1;
        assert(v@ =~= spec_vector(prefix, id, i as nat));
    }
    v
}

/// A generated vector has the requested size, starts with the prefix and
/// repeats the id after it.
pub proof fn lemma_vector_layout(prefix: u8, id: u8, size: nat)
    requires
        size > 0,
    ensures
        spec_vector(prefix, id, size).len() == size,
        spec_vector(prefix, id, size)[0] == prefix,
        forall|k: int| 1 <= k < size ==> #[trigger] spec_vector(prefix, id, size)[k] == id,
{
}

} // verus!
