//! Models of the foreign short-buffer-optimized narrow string.

use vstd::prelude::*;

use crate::HookError;

verus! {

/// Number of bytes the inline buffer of a short-buffer-optimized string
/// holds. One slot is always reserved for the trailing terminator, so
/// contents of fewer than this many bytes sit inline.
pub const SSO_LEN: usize = 16;

/// Storage of an owned native string: short contents sit in the inline
/// buffer, anything else behind a heap allocation, both in the same slot.
enum Storage {
    Inline(Vec<u8>),
    Heap(Vec<u8>),
}

/// An owned model of the foreign short-buffer-optimized `std::string`.
///
/// Instances hold no embedded terminator byte, and one slot of the inline
/// buffer is always reserved for the trailing terminator: contents shorter
/// than [`SSO_LEN`] are stored inline, anything longer behind a heap
/// allocation. Destruction frees the heap block only when the heap form was
/// used.
pub struct NativeString {
    storage: Storage,
    size: usize,
}

impl View for NativeString {
    type V = Seq<u8>;

    closed spec fn view(&self) -> Seq<u8> {
        match self.storage {
            Storage::Inline(v) => v@,
            Storage::Heap(v) => v@,
        }
    }
}

impl NativeString {
    /// Whether the contents sit in the inline buffer rather than behind a
    /// heap allocation.
    pub closed spec fn is_inline(self) -> bool {
        self.storage is Inline
    }

    /// A well-formed owned string: the recorded size matches the contents,
    /// the inline form is used exactly below the short-buffer threshold,
    /// and no content byte is the terminator.
    pub closed spec fn wf(self) -> bool {
        &&& self.size == self@.len()
        &&& (self.is_inline() <==> self.size < SSO_LEN)
        &&& forall|i: int| 0 <= i < self@.len() ==> self@[i] != 0
    }

    /// Creates a new string from caller-managed bytes.
    ///
    /// Fails with `InvalidStringData` exactly when the input holds an
    /// embedded terminator byte, allocating nothing. Otherwise the contents
    /// are stored inline exactly when they are shorter than the
    /// short-buffer threshold, and are kept byte-for-byte.
    pub fn new(data: Vec<u8>) -> (r: Result<NativeString, HookError>)
        ensures
            match r {
                Ok(s) => {
                    &&& s.wf()
                    &&& s@ == data@
                    &&& (s.is_inline() <==> data@.len() < SSO_LEN)
                    &&& forall|i: int| 0 <= i < data@.len() ==> data@[i] != 0
                },
                Err(e) => {
                    &&& e == HookError::InvalidStringData
                    &&& exists|i: int| 0 <= i < data@.len() && data@[i] == 0
                },
            },
    {
        let mut i: usize = 0;
        while i < data.len()
            invariant
                i <= data@.len(),
                forall|j: int| 0 <= j < i ==> data@[j] != 0,
            decreases data@.len() - i,
        {
            if data[i] == 0 {
                return Err(HookError::InvalidStringData);
            }
            i += 1;
        }
        let size = data.len();
        if size < SSO_LEN {
            Ok(NativeString { storage: Storage::Inline(data), size })
        } else {
            Ok(NativeString { storage: Storage::Heap(data), size })
        }
    }

    /// Gets a view of the underlying string data without copying, valid as
    /// long as the owning value is alive.
    pub fn bytes(&self) -> (r: &Vec<u8>)
        ensures
            r@ == self@,
    {
        match &self.storage {
            Storage::Inline(v) => v,
            Storage::Heap(v) => v,
        }
    }

    /// The number of content bytes, the terminator not counted.
    pub fn len(&self) -> (r: usize)
        requires
            self.wf(),
        ensures
            r == self@.len(),
    {
        self.size
    }

    /// Whether the contents are stored in the inline buffer.
    pub fn stored_inline(&self) -> (r: bool)
        ensures
            r == self.is_inline(),
    {
        match &self.storage {
            Storage::Inline(_) => true,
            Storage::Heap(_) => false,
        }
    }
}

/// A model of a foreign-owned narrow string to which a borrowed view was
/// obtained.
///
/// The foreign side creates and frees the underlying storage; this layer
/// never does. Nothing is assumed of the contents ahead of use.
pub struct Str {
    data: Vec<u8>,
    size: usize,
}

impl View for Str {
    type V = Seq<u8>;

    closed spec fn view(&self) -> Seq<u8> {
        self.data@
    }
}

impl Str {
    /// Records the bytes a read of the foreign string yields.
    pub fn from_foreign(data: Vec<u8>) -> (r: Str)
        ensures
            r@ == data@,
    {
        let size = data.len();
        Str { data, size }
    }

    /// Gets a view of the underlying string data without copying, valid
    /// only as long as the foreign owner keeps the storage alive.
    pub fn bytes(&self) -> (r: &Vec<u8>)
        ensures
            r@ == self@,
    {
        &self.data
    }
}

} // verus!
