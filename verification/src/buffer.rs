use vstd::prelude::*;

verus! {

/// The raw shape of a C string allocation: at least one byte, the last byte
/// is the NUL terminator, and no byte before it is NUL.
pub open spec fn is_nul_terminated(bytes: Seq<u8>) -> bool {
    &&& bytes.len() >= 1
    &&& bytes.last() == 0u8
    &&& forall|i: int| 0 <= i < bytes.len() - 1 ==> bytes[i] != 0u8
}

/// Host-side model of a heap allocation holding a NUL-terminated string.
///
/// A value owns the bytes of exactly one allocation; moving the value moves
/// the single responsibility for reclaiming it, and dropping it reclaims it.
/// The view is the content: the bytes before the NUL terminator.
pub struct ForeignBuffer {
    content: Vec<u8>,
}

impl View for ForeignBuffer {
    type V = Seq<u8>;

    closed spec fn view(&self) -> Seq<u8> {
        self.content@
    }
}

impl ForeignBuffer {
    /// Well-formed: the content never contains a NUL byte, so appending the
    /// terminator yields a sequence in which the terminator is unambiguous.
    pub open spec fn wf(&self) -> bool {
        !self@.contains(0u8)
    }

    /// Wraps content already known to be free of NUL bytes.
    pub(crate) fn from_nul_free_content(content: Vec<u8>) -> (c: ForeignBuffer)
        requires
            !content@.contains(0u8),
        ensures
            c.wf(),
            c@ == content@,
    {
        ForeignBuffer { content }
    }

    /// Parses the raw bytes of an allocation, terminator included, as read
    /// back from the boundary.  Returns the buffer exactly when the bytes
    /// have the C string shape, and refuses them otherwise.
    pub fn from_nul_terminated(bytes: Vec<u8>) -> (r: Option<ForeignBuffer>)
        ensures
            r is Some <==> is_nul_terminated(bytes@),
            r matches Some(c) ==> c.wf() && c@ == bytes@.drop_last(),
    {
        let n = bytes.len();
        if n == 0 {
            return None;
        }
        if bytes[n - 1] != 0u8 {
            return None;
        }
        let mut i: usize = 0;
        while i < n - 1
            invariant
                n == bytes@.len(),
                1 <= n,
                bytes@.last() == 0u8,
                i <= n - 1,
                forall|j: int| 0 <= j < i ==> bytes@[j] != 0u8,
            decreases n - 1 - i,
        {
            if bytes[i] == 0u8 {
                assert(!is_nul_terminated(bytes@));
                return None;
            }
            i += 1;
        }
        let mut content = bytes;
        let _last = content.pop();
        proof {
            assert(content@ =~= bytes@.drop_last());
            assert(forall|j: int| 0 <= j < content@.len() ==> content@[j] != 0u8);
        }
        Some(ForeignBuffer { content })
    }

    /// Consumes the buffer and hands out the raw bytes of the allocation,
    /// terminator included, ready to cross the boundary.
    pub fn into_nul_terminated(self) -> (bytes: Vec<u8>)
        requires
            self.wf(),
        ensures
            bytes@ == self@.push(0u8),
            is_nul_terminated(bytes@),
    {
        let ghost pre = self.content@;
        let mut bytes = self.content;
        bytes.push(0u8);
        proof {
            assert(forall|j: int| 0 <= j < pre.len() ==> pre[j] != 0u8);
            assert(bytes@.last() == 0u8);
        }
        bytes
    }

    /// Borrows the content bytes, without the terminator.
    pub fn as_bytes(&self) -> (bytes: &[u8])
        ensures
            bytes@ == self@,
    {
        self.content.as_slice()
    }
}

} // verus!
