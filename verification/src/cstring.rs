//! Owned, NUL-terminated byte strings as the kernel takes them.
use vstd::prelude::*;

verus! {

/// Whether a byte sequence contains no NUL byte, as a path handed to the kernel must not.
pub open spec fn no_nul(bytes: Seq<u8>) -> bool {
    forall|i: int| 0 <= i < bytes.len() ==> #[trigger] bytes[i] != 0u8
}

/// Whether a byte sequence is a valid C string: a NUL byte at its end and nowhere else.
pub open spec fn is_c_string(bytes: Seq<u8>) -> bool {
    &&& bytes.len() > 0
    &&& bytes.last() == 0u8
    &&& no_nul(bytes.drop_last())
}

/// The C string that holds a path: its bytes followed by a NUL byte.
pub open spec fn c_path(path: Seq<u8>) -> Seq<u8> {
    path.push(0u8)
}

/// An owned C string. Its bytes include the terminating NUL byte.
#[derive(Debug)]
pub struct CString {
    data: Vec<u8>,
}

impl View for CString {
    type V = Seq<u8>;

    closed spec fn view(&self) -> Seq<u8> {
        self.data@
    }
}

impl CString {
    /// Turns the byte vector directly into a `CString` without checking it for validity.
    pub fn from_bytes_unchecked(bytes: Vec<u8>) -> (s: CString)
        ensures
            s@ == bytes@,
    {
        CString { data: bytes }
    }

    /// The empty C string, which consists of the terminating NUL byte alone.
    pub fn empty() -> (s: CString)
        ensures
            s@ == seq![0u8],
            is_c_string(s@),
    {
        let mut data: Vec<u8> = Vec::new();
        data.push(0u8);
        proof {
            assert(data@.drop_last() =~= Seq::<u8>::empty());
        }
        CString { data }
    }

    /// The C string of a path that contains no NUL byte.
    pub fn from_path(path: &[u8]) -> (s: CString)
        requires
            no_nul(path@),
        ensures
            s@ == c_path(path@),
            is_c_string(s@),
    {
        let mut data: Vec<u8> = Vec::new();
        let mut i: usize = 0;
        while i < path.len()
            invariant
                i <= path@.len(),
                data@ == path@.subrange(0, i as int),
            decreases path@.len() - i,
        {
            data.push(path[i]);
            i = i + 1;
            proof {
                assert(data@ =~= path@.subrange(0, i as int));
            }
        }
        proof {
            assert(data@ =~= path@);
        }
        data.push(0u8);
        proof {
            assert(data@.drop_last() =~= path@);
        }
        CString { data }
    }

    /// The bytes of the string, the terminating NUL byte included.
    pub fn as_bytes(&self) -> (b: &[u8])
        ensures
            b@ == self@,
    {
        self.data.as_slice()
    }

    /// The bytes of the string, the terminating NUL byte included, to modify in place.
    pub fn as_mut_bytes(&mut self) -> (b: &mut [u8])
        ensures
            b@ == old(self)@,
            final(self)@ == final(b)@,
    {
        self.data.as_mut_slice()
    }
}

/// The C string of a path holds the path's bytes in order, then one NUL byte, and nothing
/// else; for a path without NUL bytes it is a valid C string.
pub proof fn lemma_c_path(path: Seq<u8>)
    ensures
        c_path(path).len() == path.len() + 1,
        forall|i: int| 0 <= i < path.len() ==> #[trigger] c_path(path)[i] == path[i],
        c_path(path)[path.len() as int] == 0u8,
        no_nul(path) ==> is_c_string(c_path(path)),
{
    assert(c_path(path).drop_last() =~= path);
}

} // verus!
