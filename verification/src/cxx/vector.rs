//! A model of a foreign contiguous vector, viewed but never owned.

use vstd::prelude::*;

use crate::HookError;

verus! {

/// A model of a foreign `std::vector`: a contiguous storage of elements
/// bounded by three addresses.
///
/// `head` is the start of the storage, `tail` the end of the inserted
/// elements and `end` the end of the allocated region. `elem_size` records
/// the foreign element type's size in bytes, and `data` the elements the
/// inserted region holds.
pub struct Vector<T> {
    head: usize,
    tail: usize,
    end: usize,
    elem_size: usize,
    data: Vec<T>,
}

impl<T> View for Vector<T> {
    type V = Seq<T>;

    closed spec fn view(&self) -> Seq<T> {
        self.data@
    }
}

impl<T> Vector<T> {
    /// The start address of the element storage.
    pub closed spec fn spec_head(self) -> usize {
        self.head
    }

    /// The end address of the inserted elements.
    pub closed spec fn spec_tail(self) -> usize {
        self.tail
    }

    /// The end address of the allocated region.
    pub closed spec fn spec_end(self) -> usize {
        self.end
    }

    /// The size in bytes of one element.
    pub closed spec fn spec_elem_size(self) -> usize {
        self.elem_size
    }

    /// A well-formed view: the element size is positive and no larger than
    /// the signed address-space limit, the three addresses are ordered, the
    /// whole region spans at most the signed address-space limit, both
    /// regions are whole multiples of the element size, and the recorded
    /// elements fill the inserted region. A null view holds nothing.
    pub closed spec fn wf(self) -> bool {
        &&& 0 < self.elem_size <= isize::MAX
        &&& self.head <= self.tail <= self.end
        &&& self.end - self.head <= isize::MAX
        &&& (self.tail - self.head) % (self.elem_size as int) == 0
        &&& (self.end - self.head) % (self.elem_size as int) == 0
        &&& self.data@.len() == self.spec_len()
        &&& self.head == 0 ==> self.tail == 0 && self.end == 0
    }

    /// The number of inserted elements, measured by address distance.
    pub closed spec fn spec_len(self) -> int {
        (self.tail - self.head) / (self.elem_size as int)
    }

    /// The number of elements the allocated region can hold.
    pub closed spec fn spec_capacity(self) -> int {
        (self.end - self.head) / (self.elem_size as int)
    }

    /// Builds a view over `data` as if it sat at address `head`, with room
    /// for `spare` more elements behind it.
    ///
    /// Fails with `LayoutViolation` when the element size is zero or larger
    /// than the signed address-space limit, the conditions under which no
    /// region of such elements can be measured.
    pub fn from_parts(head: usize, elem_size: usize, data: Vec<T>, spare: usize) -> (r: Result<
        Vector<T>,
        HookError,
    >)
        requires
            head + (data@.len() + spare) * elem_size <= usize::MAX,
            (data@.len() + spare) * elem_size <= isize::MAX,
            head == 0 ==> data@.len() == 0 && spare == 0,
        ensures
            match r {
                Ok(v) => {
                    &&& 0 < elem_size <= isize::MAX
                    &&& v.wf()
                    &&& v@ == data@
                    &&& v.spec_head() == head
                    &&& v.spec_elem_size() == elem_size
                    &&& v.spec_len() == data@.len()
                    &&& v.spec_capacity() == data@.len() + spare
                },
                Err(e) => {
                    &&& e == HookError::LayoutViolation
                    &&& !(0 < elem_size <= isize::MAX)
                },
            },
    {
        if elem_size == 0 || elem_size > (isize::MAX as usize) {
            return Err(HookError::LayoutViolation);
        }
        let len = data.len();
        proof {
            assert((len + spare) * elem_size == len * elem_size + spare * elem_size && ((len
                + spare) * elem_size <= isize::MAX ==> len + spare <= isize::MAX && len * elem_size
                <= (len + spare) * elem_size)) by (nonlinear_arith)
                requires 0 < elem_size;
        }
        let tail = head + len * elem_size;
        let end = tail + spare * elem_size;
        proof {
            assert(len * elem_size % (elem_size as int) == 0 && (len + spare) * elem_size % (
            elem_size as int) == 0 && len * elem_size / (elem_size as int) == len && (len + spare)
                * elem_size / (elem_size as int) == len + spare) by (nonlinear_arith)
                requires 0 < elem_size;
            assert(tail - head == len * elem_size);
            assert(end - head == (len + spare) * elem_size) by (nonlinear_arith)
                requires tail - head == len * elem_size && end == tail + spare * elem_size;
        }
        Ok(Vector { head, tail, end, elem_size, data })
    }

    /// Gets the length of the vector measured by the elements it holds.
    ///
    /// This is the offset between the head and tail addresses of the
    /// inserted region divided by the element size.
    pub fn len(&self) -> (r: usize)
        requires
            self.wf(),
        ensures
            r == self.spec_len(),
            r == self@.len(),
    {
        let pointee_size = self.elem_size;
        let region = self.tail - self.head;
        region / pointee_size
    }

    /// Checks if the vector is empty, i.e. is holding zero elements.
    #[inline]
    pub fn is_empty(&self) -> (r: bool)
        requires
            self.wf(),
        ensures
            r == (self@.len() == 0),
    {
        self.len() == 0
    }

    /// Gets the capacity that is reserved for the storage of this vector.
    ///
    /// This is the size of the allocated region divided by the element size.
    pub fn capacity(&self) -> (r: usize)
        requires
            self.wf(),
        ensures
            r == self.spec_capacity(),
            self@.len() <= r,
    {
        let pointee_size = self.elem_size;
        let region = self.end - self.head;
        proof {
            lemma_len_le_capacity(*self);
        }
        region / pointee_size
    }

    /// Gets the underlying vector storage as a contiguous slice.
    ///
    /// A view whose head address is null holds no elements, so the slice
    /// degrades to an empty one there.
    pub fn as_slice(&self) -> (r: &[T])
        requires
            self.wf(),
        ensures
            r@ == self@,
    {
        self.data.as_slice()
    }

    /// Gets the start address of the inserted region.
    pub fn as_ptr(&self) -> (r: usize)
        ensures
            r == self.spec_head(),
    {
        self.head
    }
}

/// For any well-formed view, the element count never exceeds the capacity;
/// and when the head, tail and capacity-end addresses all coincide, both
/// counts are zero.
pub proof fn lemma_len_le_capacity<T>(v: Vector<T>)
    requires
        v.wf(),
    ensures
        v.spec_len() <= v.spec_capacity(),
        v.spec_head() == v.spec_tail() && v.spec_tail() == v.spec_end() ==> v.spec_len() == 0
            && v.spec_capacity() == 0,
{
    vstd::arithmetic::div_mod::lemma_div_is_ordered(
        v.spec_tail() - v.spec_head(),
        v.spec_end() - v.spec_head(),
        v.spec_elem_size() as int,
    );
    assert(v.spec_head() == v.spec_tail() && v.spec_tail() == v.spec_end()
        ==> v.spec_len() == 0 && v.spec_capacity() == 0) by {
        if v.spec_head() == v.spec_tail() && v.spec_tail() == v.spec_end() {
            vstd::arithmetic::div_mod::lemma_basic_div(0, v.spec_elem_size() as int);
        }
    }
}

} // verus!
