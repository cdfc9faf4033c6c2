//! Framing of the opaque data blob handed to the foreign constructor.
use vstd::prelude::*;

use crate::error::BridgeStanError;

verus! {

/// Whether `d` holds a NUL byte before its last position.
pub open spec fn has_interior_nul(d: Seq<u8>) -> bool {
    exists|i: int| 0 <= i < d.len() - 1 && d[i] == 0
}

/// The bytes handed to the foreign side: the payload with exactly one NUL at
/// its end, added unless the payload already ends in one.
pub open spec fn framed(d: Seq<u8>) -> Seq<u8> {
    if d.len() > 0 && d.last() == 0 {
        d
    } else {
        d.push(0)
    }
}

/// The first index of a NUL byte before the last position of `d`.
pub open spec fn is_first_interior_nul(d: Seq<u8>, i: int) -> bool {
    0 <= i < d.len() - 1 && d[i] == 0 && forall|j: int| 0 <= j < i ==> d[j] != 0
}

/// A NUL-terminated byte string with no other NUL in it, as the foreign
/// constructor reads its data argument.
pub struct DataPayload {
    bytes: Vec<u8>,
}

impl DataPayload {
    pub closed spec fn view(&self) -> Seq<u8> {
        self.bytes@
    }

    /// The terminated form holds its one NUL at the end.
    pub open spec fn wf(&self) -> bool {
        self.view().len() > 0 && self.view().last() == 0 && !has_interior_nul(self.view())
    }

    /// Frames `data` for the foreign side. Data with a NUL before its end
    /// would be cut short there, so it is refused with the index of the first
    /// such byte.
    pub fn from_bytes(data: &[u8]) -> (r: Result<DataPayload, BridgeStanError>)
        requires
            data@.len() < usize::MAX,
        ensures
            r is Ok <==> !has_interior_nul(data@),
            r is Ok ==> r->Ok_0.view() == framed(data@) && r->Ok_0.wf(),
            r is Err ==> exists|i: usize|
                r->Err_0 == BridgeStanError::InvalidData(i) && is_first_interior_nul(data@, i as int),
    {
        let n = data.len();
        let mut bytes: Vec<u8> = Vec::new();
        let mut i: usize = 0;
        while i < n
            invariant
                n == data@.len(),
                n < usize::MAX,
                i <= n,
                bytes@ == data@.subrange(0, i as int),
                forall|j: int| 0 <= j < i && j < n - 1 ==> data@[j] != 0,
            decreases n - i,
        {
            if data[i] == 0 && i + 1 < n {
                assert(is_first_interior_nul(data@, i as int));
                return Err(BridgeStanError::InvalidData(i));
            }
            bytes.push(data[i]);
            i = i + 1;
        }
        assert(bytes@ == data@);
        if n == 0 || data[n - 1] != 0 {
            bytes.push(0);
        }
        let r = DataPayload { bytes };
        assert(r.view() == framed(data@));
        assert(!has_interior_nul(r.view()));
        Ok(r)
    }

    /// The terminated bytes, ready to be passed by address.
    pub fn as_bytes(&self) -> (r: &[u8])
        ensures
            r@ == self.view(),
    {
        self.bytes.as_slice()
    }
}

} // verus!
