//! Part descriptors and pending part tasks.

use vstd::prelude::*;

verus! {

/// The descriptor a backend hands back for one successfully uploaded part.
///
/// `part_number` is the zero-based index of the part; `etag` is the opaque
/// tag the backend assigned to it. Once created, a descriptor is appended to
/// the writer's completed-parts list and never changed.
#[derive(Clone)]
pub struct MultipartPart {
    /// The number of the part, starting from 0.
    pub part_number: usize,
    /// The etag of the part.
    pub etag: String,
}

impl MultipartPart {
    /// An exact copy of this descriptor.
    pub fn duplicate(&self) -> (p: MultipartPart)
        ensures
            p == *self,
    {
        MultipartPart { part_number: self.part_number, etag: self.etag.clone() }
    }
}

/// One pending part upload: the chunk to send and the part number it was
/// assigned at dispatch. A retry of a failed part reuses both unchanged.
pub struct PartTask {
    /// The zero-based number the part was assigned when dispatched.
    pub part_number: usize,
    /// The chunk of data this part carries.
    pub bytes: Vec<u8>,
}

impl View for PartTask {
    type V = (int, Seq<u8>);

    open spec fn view(&self) -> (int, Seq<u8>) {
        (self.part_number as int, self.bytes@)
    }
}

impl PartTask {
    /// A duplicate that carries the identical part number and bytes.
    pub fn duplicate(&self) -> (t: PartTask)
        ensures
            t@ == self@,
    {
        PartTask { part_number: self.part_number, bytes: copy_bytes(&self.bytes) }
    }
}

/// A fresh byte buffer with the same contents as `bs`.
pub fn copy_bytes(bs: &Vec<u8>) -> (r: Vec<u8>)
    ensures
        r@ == bs@,
{
    let mut r: Vec<u8> = Vec::new();
    let mut i: usize = 0;
    while i < bs.len()
        invariant
            i <= bs@.len(),
            r@ == bs@.subrange(0, i as int),
        decreases bs@.len() - i,
    {
        r.push(bs[i]);
        assert(r@ =~= bs@.subrange(0, i + 1 as int));
        i = i + 1;
    }
    assert(r@ =~= bs@);
    r
}

} // verus!
