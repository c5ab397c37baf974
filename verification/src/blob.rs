//! The Blob: a flat value buffer (`data`), a structurally parallel gradient
//! buffer (`diff`), and the shape describing how the flat buffers are to be
//! read as an N-dimensional array.
//!
//! Storage policy: `reshape` computes the capacity a shape requires as the
//! product of its extents (wrapping on overflow, as the dimension product is
//! deliberately unchecked) and grows the buffers only when that requirement
//! exceeds the capacity already reserved. Growth replaces both buffers with
//! empty ones, discarding previous contents; a requirement within the current
//! capacity leaves the buffers completely untouched. The reserved capacity is
//! a single count shared by `data` and `diff`: the two buffers are always
//! rebuilt together, so their capacities can never diverge.
//!
//! A reshape changes only the declared shape and, when growing, the reserved
//! storage: it never populates, truncates or zero-fills the buffers, so the
//! shape may describe an element count that differs from `len()`. Resolving
//! that mismatch is left to the numeric code consuming the Blob.

use vstd::prelude::*;

use crate::decimal::push_char;
use crate::decimal::push_dec_isize;
use crate::decimal::push_dec_usize;
use crate::decimal::spec_dec_int;
use crate::decimal::spec_dec_nat;
use crate::numeric::Numeric;

verus! {

/// The mathematical view of a [`Blob`]: the contents of the two buffers, the
/// shape, and the one reserved capacity shared by both buffers.
#[verifier::ext_equal]
pub struct BlobView<T> {
    /// Contents of the forward-value buffer.
    pub data: Seq<T>,
    /// Contents of the gradient buffer.
    pub diff: Seq<T>,
    /// The dimension extents; the sequence length is the rank.
    pub shape: Seq<isize>,
    /// The reserved element count, shared by `data` and `diff`.
    pub capacity: nat,
}

/// The capacity a shape requires: the product of its extents, accumulated
/// left to right with wrapping multiplication starting from one, so the
/// empty shape requires capacity one. Zero or negative extents are accepted
/// and simply drive the product to zero or below.
pub open spec fn spec_required_capacity(shape: Seq<isize>) -> isize
    decreases shape.len(),
{
    if shape.len() == 0 {
        1isize
    } else {
        spec_required_capacity(shape.drop_last()).wrapping_mul(shape.last())
    }
}

/// What `reshape` does to a Blob's view: the shape is replaced
/// unconditionally; when the required capacity exceeds the reserved one,
/// both buffers are replaced by empty ones reserved to exactly the
/// requirement, and otherwise buffers and capacity are left untouched.
pub open spec fn spec_reshape<T>(v: BlobView<T>, new_shape: Seq<isize>) -> BlobView<T> {
    let required = spec_required_capacity(new_shape);
    if required as int > v.capacity as int {
        BlobView {
            data: Seq::<T>::empty(),
            diff: Seq::<T>::empty(),
            shape: new_shape,
            capacity: required as nat,
        }
    } else {
        BlobView { shape: new_shape, ..v }
    }
}

/// The view of a Blob constructed with the given shape: a reshape applied to
/// a Blob with empty buffers, shape `[0]` and no reserved capacity.
pub open spec fn spec_of_shape<T>(new_shape: Seq<isize>) -> BlobView<T> {
    spec_reshape(
        BlobView { data: Seq::<T>::empty(), diff: Seq::<T>::empty(), shape: seq![0isize], capacity: 0 },
        new_shape,
    )
}

/// The view of a freshly constructed Blob: the one of shape `[0]`.
pub open spec fn spec_new<T>() -> BlobView<T> {
    spec_of_shape(seq![0isize])
}

/// The textual form of one dimension extent: its decimal rendering followed
/// by a single space.
pub open spec fn spec_extent_string(extent: isize) -> Seq<char> {
    spec_dec_int(extent as int) + seq![' ']
}

/// The textual form of the extents of a shape, in order.
pub open spec fn spec_dims_string(shape: Seq<isize>) -> Seq<char>
    decreases shape.len(),
{
    if shape.len() == 0 {
        Seq::<char>::empty()
    } else {
        spec_dims_string(shape.drop_last()) + spec_extent_string(shape.last())
    }
}

/// The textual form of a shape: each extent followed by a space, in order,
/// then the rank in parentheses.
pub open spec fn spec_shape_string(shape: Seq<isize>) -> Seq<char> {
    spec_dims_string(shape) + seq!['('] + spec_dec_nat(shape.len()) + seq![')']
}

/// The container for the forward-value buffer `data`, its gradient buffer
/// `diff`, and the `shape` dimensions.
#[derive(Debug)]
pub struct Blob<T: Numeric> {
    data: Vec<T>,
    diff: Vec<T>,
    shape: Vec<isize>,
    cap: usize,
}

impl<T: Numeric> View for Blob<T> {
    type V = BlobView<T>;

    closed spec fn view(&self) -> BlobView<T> {
        BlobView {
            data: self.data@,
            diff: self.diff@,
            shape: self.shape@,
            capacity: self.cap as nat,
        }
    }
}

impl<T: Numeric> Blob<T> {
    /// A Blob is well formed when its reserved capacity fits in `isize`,
    /// so that the growth test can compare it against a shape's required
    /// capacity. Every constructor establishes this and every method
    /// preserves it.
    pub open spec fn wf(self) -> bool {
        self@.capacity <= isize::MAX as nat
    }

    /// Creates a new Blob, of shape `[0]`, holding nothing.
    pub fn new() -> (blob: Blob<T>)
        ensures
            blob.wf(),
            blob@ == spec_new::<T>(),
    {
        let mut initial_shape: Vec<isize> = Vec::new();
        initial_shape.push(0);
        proof {
            assert(initial_shape@ =~= seq![0isize]);
        }
        Blob::of_shape(initial_shape)
    }

    /// Creates a new Blob with the specified `shape`: an empty Blob to which
    /// one reshape has been applied.
    pub fn of_shape(new_shape: Vec<isize>) -> (blob: Blob<T>)
        ensures
            blob.wf(),
            blob@ == spec_of_shape::<T>(new_shape@),
    {
        let mut start_shape: Vec<isize> = Vec::new();
        start_shape.push(0);
        let mut blob = Blob { data: Vec::new(), diff: Vec::new(), shape: start_shape, cap: 0 };
        proof {
            assert(blob@ =~= (BlobView {
                data: Seq::<T>::empty(),
                diff: Seq::<T>::empty(),
                shape: seq![0isize],
                capacity: 0,
            }));
        }
        blob.reshape(new_shape);
        blob
    }

    /// Reshapes the Blob to the new `shape` given. The required capacity is
    /// the wrapping product of the extents; when it exceeds the reserved
    /// capacity, both buffers are replaced by empty ones reserved to the
    /// requirement, and otherwise the buffers are left untouched.
    pub fn reshape(&mut self, new_shape: Vec<isize>)
        requires
            old(self).wf(),
        ensures
            final(self).wf(),
            final(self)@ == spec_reshape(old(self)@, new_shape@),
    {
        let ghost ns = new_shape@;
        let mut new_capacity: isize = 1;
        let mut i: usize = 0;
        while i < new_shape.len()
            invariant
                i <= ns.len(),
                ns == new_shape@,
                new_capacity == spec_required_capacity(ns.take(i as int)),
            decreases ns.len() - i,
        {
            new_capacity = new_capacity.wrapping_mul(new_shape[i]);
            proof {
                assert(ns.take(i as int + 1).drop_last() =~= ns.take(i as int));
            }
            i += 1;
        }
        proof {
            assert(ns.take(ns.len() as int) =~= ns);
        }
        self.shape = new_shape;
        if new_capacity > self.cap as isize {
            self.cap = new_capacity as usize;
            self.data = Vec::with_capacity(self.cap);
            self.diff = Vec::with_capacity(self.cap);
        }
        proof {
            assert(self@ =~= spec_reshape(old(self)@, ns));
        }
    }

    /// Returns a copy of the shape of the Blob, aliasing nothing.
    pub fn shape(&self) -> (shape: Vec<isize>)
        ensures
            shape@ == self@.shape,
    {
        let mut out: Vec<isize> = Vec::new();
        let mut i: usize = 0;
        while i < self.shape.len()
            invariant
                i <= self@.shape.len(),
                out@ == self@.shape.take(i as int),
            decreases self@.shape.len() - i,
        {
            out.push(self.shape[i]);
            proof {
                assert(self@.shape.take(i as int + 1) =~= self@.shape.take(i as int).push(
                    self@.shape[i as int],
                ));
            }
            i += 1;
        }
        proof {
            assert(self@.shape.take(self@.shape.len() as int) =~= self@.shape);
        }
        out
    }

    /// Returns the textual form of the Blob's shape: each dimension extent
    /// followed by a space, then the rank in parentheses.
    pub fn shape_string(&self) -> (rendered: String)
        ensures
            rendered@ == spec_shape_string(self@.shape),
    {
        let mut rendered = String::new();
        let mut i: usize = 0;
        while i < self.shape.len()
            invariant
                i <= self@.shape.len(),
                rendered@ == spec_dims_string(self@.shape.take(i as int)),
            decreases self@.shape.len() - i,
        {
            push_dec_isize(&mut rendered, self.shape[i]);
            push_char(&mut rendered, ' ');
            proof {
                assert(self@.shape.take(i as int + 1).drop_last() =~= self@.shape.take(i as int));
                assert(rendered@ =~= spec_dims_string(self@.shape.take(i as int + 1)));
            }
            i += 1;
        }
        proof {
            assert(self@.shape.take(self@.shape.len() as int) =~= self@.shape);
        }
        push_char(&mut rendered, '(');
        push_dec_usize(&mut rendered, self.shape.len());
        push_char(&mut rendered, ')');
        proof {
            assert(rendered@ =~= spec_shape_string(self@.shape));
        }
        rendered
    }

    /// Returns the number of logically populated elements in the Blob's
    /// `data` buffer. Independent of the shape's implied element count.
    pub fn len(&self) -> (n: usize)
        ensures
            n == self@.data.len(),
    {
        self.data.len()
    }

    /// Returns whether the Blob's `data` buffer holds no elements.
    pub fn is_empty(&self) -> (empty: bool)
        ensures
            empty == (self@.data.len() == 0),
    {
        self.data.len() == 0
    }

    /// Returns the reserved capacity of the Blob's buffers: one count,
    /// shared by `data` and `diff`.
    pub fn capacity(&self) -> (cap: usize)
        ensures
            cap == self@.capacity,
    {
        self.cap
    }

    /// Returns a read-only view of the data of the Blob.
    pub fn cpu_data(&self) -> (data: &Vec<T>)
        ensures
            data@ == self@.data,
    {
        &self.data
    }

    /// Returns exclusive write access to the data of the Blob. Whatever the
    /// caller leaves in the buffer is exactly what the Blob then holds as
    /// its data; nothing else about the Blob changes.
    pub fn mutable_cpu_data(&mut self) -> (data: &mut Vec<T>)
        ensures
            data@ == old(self)@.data,
            final(self)@.data == final(data)@,
            final(self)@.diff == old(self)@.diff,
            final(self)@.shape == old(self)@.shape,
            final(self)@.capacity == old(self)@.capacity,
    {
        &mut self.data
    }

    /// Returns a read-only view of the diff of the Blob.
    pub fn cpu_diff(&self) -> (diff: &Vec<T>)
        ensures
            diff@ == self@.diff,
    {
        &self.diff
    }

    /// Returns exclusive write access to the diff of the Blob. Whatever the
    /// caller leaves in the buffer is exactly what the Blob then holds as
    /// its diff; nothing else about the Blob changes.
    pub fn mutable_cpu_diff(&mut self) -> (diff: &mut Vec<T>)
        ensures
            diff@ == old(self)@.diff,
            final(self)@.diff == final(diff)@,
            final(self)@.data == old(self)@.data,
            final(self)@.shape == old(self)@.shape,
            final(self)@.capacity == old(self)@.capacity,
    {
        &mut self.diff
    }
}

/// Law: constructing a Blob with a given shape yields exactly that shape.
pub proof fn lemma_of_shape_shape<T>(shape: Seq<isize>)
    ensures
        spec_of_shape::<T>(shape).shape == shape,
{
}

/// Law: a freshly constructed Blob has shape `[0]`, holds no data and no
/// diff, and has no reserved capacity.
pub proof fn lemma_new_view<T>()
    ensures
        spec_new::<T>().shape == seq![0isize],
        spec_new::<T>().data == Seq::<T>::empty(),
        spec_new::<T>().diff == Seq::<T>::empty(),
        spec_new::<T>().capacity == 0,
{
    assert(seq![0isize].drop_last() =~= Seq::<isize>::empty());
    assert(spec_required_capacity(seq![0isize]) == (1isize).wrapping_mul(0isize));
    assert((1isize).wrapping_mul(0isize) == 0isize);
}

/// Law: reshaping to a capacity requirement strictly greater than the
/// reserved capacity resets both buffers to empty (prior content is
/// discarded) and the reserved capacity becomes the requirement.
pub proof fn lemma_reshape_grow<T>(v: BlobView<T>, new_shape: Seq<isize>)
    requires
        spec_required_capacity(new_shape) as int > v.capacity as int,
    ensures
        spec_reshape(v, new_shape).shape == new_shape,
        spec_reshape(v, new_shape).data.len() == 0,
        spec_reshape(v, new_shape).diff.len() == 0,
        spec_reshape(v, new_shape).capacity == spec_required_capacity(new_shape) as int,
{
}

/// Law: reshaping to a capacity requirement within the reserved capacity
/// leaves the buffer contents and the reserved capacity unchanged, whatever
/// element count the new shape implies.
pub proof fn lemma_reshape_within_capacity<T>(v: BlobView<T>, new_shape: Seq<isize>)
    requires
        spec_required_capacity(new_shape) as int <= v.capacity as int,
    ensures
        spec_reshape(v, new_shape).shape == new_shape,
        spec_reshape(v, new_shape).data == v.data,
        spec_reshape(v, new_shape).diff == v.diff,
        spec_reshape(v, new_shape).capacity == v.capacity,
{
}

/// Law: reshaping twice in a row with the same shape, where the first call
/// already found the reserved capacity sufficient, changes nothing on the
/// second call.
pub proof fn lemma_reshape_idempotent<T>(v: BlobView<T>, new_shape: Seq<isize>)
    requires
        spec_required_capacity(new_shape) as int <= v.capacity as int,
    ensures
        spec_reshape(spec_reshape(v, new_shape), new_shape) == spec_reshape(v, new_shape),
{
    assert(spec_reshape(spec_reshape(v, new_shape), new_shape) =~= spec_reshape(v, new_shape));
}

} // verus!
