//! The generic foreign list and its owned iterator.
//!
//! Slurm keeps many of its results in an opaque linked-list structure.
//! `SlurmList<T>` is a *borrowed* view of such a list, typed at this level
//! by the element wrapper `T` that raw element pointers are reinterpreted
//! as; the foreign runtime itself enforces nothing, so the type parameter
//! records the convention established at each construction site.  A list
//! view may be fully absent (null handle) or empty, and every read
//! operation treats the two states identically: zero elements, no error.
//!
//! Walking a list requires a foreign-allocated cursor, so the iterator is
//! an *owned* resource: it frees its cursor — and only its cursor — when
//! destroyed.  The walk is lazy, forward-only and non-restartable, and
//! once it has reported the end it stays exhausted: further calls return
//! nothing and leave the heap untouched.

use core::marker::PhantomData;
use vstd::prelude::*;
use crate::heap::{
    extends, unchanged_except, ListIterData, Payload, RawHandle, SlurmHeap,
};

verus! {

/// Element wrappers that can be built from a raw pointer handed out by a
/// foreign list walk.
pub trait UnownedFromSlurmPointer: Sized {
    /// The raw handle the view wraps.
    spec fn spec_handle(self) -> RawHandle;

    /// Create an unowned wrapper object from a Slurm pointer.
    fn unowned_from_slurm_pointer(ptr: RawHandle) -> (r: Self)
        ensures
            r.spec_handle() == ptr,
    ;
}

/// The element handles of the list at `lh`, in order; an absent list has
/// no elements.
pub open spec fn list_elems_at(heap: SlurmHeap, lh: RawHandle) -> Seq<RawHandle> {
    if lh == 0 {
        Seq::empty()
    } else {
        heap.payload_of(lh)->List_0@
    }
}

/// A borrowed view of a list of some kind of object known to Slurm.
#[derive(Debug)]
pub struct SlurmList<T> {
    /// Handle of the foreign list structure, or null for an absent list.
    pub h: RawHandle,
    pub marker: PhantomData<T>,
}

impl<T> Clone for SlurmList<T> {
    fn clone(&self) -> (r: Self)
        ensures
            r == *self,
    {
        SlurmList { h: self.h, marker: PhantomData }
    }
}

impl<T> Copy for SlurmList<T> {

}

impl<T> SlurmList<T> {
    /// The raw handle this view wraps.
    pub open spec fn addr(self) -> RawHandle {
        self.h
    }

    /// The view is null or designates a live foreign list.
    pub open spec fn valid(self, heap: SlurmHeap) -> bool {
        self.h == 0 || (heap.live(self.h) && heap.payload_of(self.h) is List)
    }

    /// The element handles this list holds (none when absent).
    pub open spec fn elems(self, heap: SlurmHeap) -> Seq<RawHandle> {
        list_elems_at(heap, self.h)
    }

    /// Reinterpret a raw list handle, read out of a field of some other
    /// foreign structure, as a typed list view.  The view stays meaningful
    /// only while whoever owns that structure keeps the list alive.
    pub fn from_raw(h: RawHandle) -> (r: SlurmList<T>)
        ensures
            r.addr() == h,
    {
        SlurmList { h, marker: PhantomData }
    }

    /// A null list view: no backing foreign structure at all.
    pub fn null() -> (r: SlurmList<T>)
        ensures
            r.addr() == 0,
            forall|heap: SlurmHeap| r.valid(heap) && r.elems(heap) == Seq::<RawHandle>::empty(),
    {
        SlurmList { h: 0, marker: PhantomData }
    }

    /// Number of elements the list currently holds.
    pub fn len(&self, heap: &SlurmHeap) -> (n: usize)
        requires
            heap.wf(),
            self.valid(*heap),
        ensures
            n == self.elems(*heap).len(),
    {
        if self.h == 0 {
            0
        } else {
            match heap.read(self.h) {
                Payload::List(v) => v.len(),
                _ => vstd::pervasive::unreached(),
            }
        }
    }
}

impl<T: UnownedFromSlurmPointer> SlurmList<T> {
    /// Create a foreign cursor bound to this list.  Cursor allocation
    /// failure would abort the process, like any other exhaustion of the
    /// foreign allocator; the model's allocation always succeeds.
    pub fn iter(&self, heap: &mut SlurmHeap) -> (it: SlurmListIteratorOwned<T>)
        requires
            old(heap).wf(),
            self.valid(*old(heap)),
        ensures
            final(heap).wf(),
            extends(*old(heap), *final(heap)),
            unchanged_except(*old(heap), *final(heap), it.addr()),
            !old(heap).live(it.addr()),
            it.valid(*final(heap)),
            it.cursor(*final(heap)) == (ListIterData { list: self.h, pos: 0 }),
    {
        let h = heap.allocate(Payload::ListIter(ListIterData { list: self.h, pos: 0 }));
        SlurmListIteratorOwned { h, marker: PhantomData }
    }
}

/// An owned version of `SlurmList`: destroying it releases the list and
/// the elements the list took responsibility for.
#[derive(Debug)]
pub struct SlurmListOwned<T> {
    pub l: SlurmList<T>,
}

impl<T> SlurmListOwned<T> {
    /// The raw handle this wrapper owns.
    pub open spec fn addr(self) -> RawHandle {
        self.l.h
    }

    /// Borrow the list view for read operations.
    pub fn as_list(&self) -> (r: &SlurmList<T>)
        ensures
            *r == self.l,
    {
        &self.l
    }

    /// Surrender the wrapped list without releasing it; the caller (or the
    /// foreign structure the view is handed to) takes over the lifetime,
    /// and this wrapper can never free the handle again.
    pub fn give_up_ownership(self) -> (r: SlurmList<T>)
        ensures
            r == self.l,
    {
        self.l
    }

    /// Commit to releasing `h` exactly once; the caller asserts that no
    /// other owner of the handle exists.
    pub fn assume_ownership(h: RawHandle) -> (r: Self)
        ensures
            r.addr() == h,
    {
        SlurmListOwned { l: SlurmList { h, marker: PhantomData } }
    }

    /// The wrapper may release everything it is responsible for: either
    /// nothing (null handle), or a live list whose elements are live,
    /// mutually distinct and distinct from the list structure itself.
    pub open spec fn destroyable(self, heap: SlurmHeap) -> bool {
        self.addr() == 0 || {
            let es = self.l.elems(heap);
            &&& self.l.valid(heap)
            &&& forall|i: int| 0 <= i < es.len() ==> #[trigger] heap.live(es[i]) && es[i] != self.addr()
            &&& forall|i: int, j: int| 0 <= i < j < es.len() ==> es[i] != es[j]
        }
    }

    /// Handles that destroying this list does not touch: anything other
    /// than the list structure and its elements.
    pub open spec fn untouched_by_destroy(self, pre: SlurmHeap, x: RawHandle) -> bool {
        x != self.addr() && !self.l.elems(pre).contains(x)
    }

    /// Release the list: every element is handed to the destructor the
    /// list was created with, then the list structure itself goes.  The
    /// handle is nulled, so a second call is a guaranteed no-op.
    pub fn destroy(&mut self, heap: &mut SlurmHeap)
        requires
            old(heap).wf(),
            old(self).destroyable(*old(heap)),
        ensures
            final(heap).wf(),
            final(self).addr() == 0,
            old(self).addr() == 0 ==> *final(heap) == *old(heap),
            old(self).addr() != 0 ==> !final(heap).live(old(self).addr()),
            forall|i: int| 0 <= i < old(self).l.elems(*old(heap)).len()
                ==> !final(heap).live(#[trigger] old(self).l.elems(*old(heap))[i]),
            forall|x: RawHandle|
                old(self).untouched_by_destroy(*old(heap), x) && old(heap).live(x)
                    ==> #[trigger] final(heap).live(x) && final(heap).payload_of(x)
                    == old(heap).payload_of(x),
    {
        if self.l.h == 0 {
            return ;
        }
        let lh = self.l.h;
        let entries = match heap.read(lh) {
            Payload::List(v) => crate::heap::clone_handles(v),
            _ => vstd::pervasive::unreached(),
        };
        let ghost entry_seq = entries@;
        let mut i: usize = 0;
        while i < entries.len()
            invariant
                heap.wf(),
                entries@ == entry_seq,
                i <= entry_seq.len(),
                lh != 0,
                old(self).addr() == lh,
                old(self).l.elems(*old(heap)) == entry_seq,
                forall|k: int| 0 <= k < entry_seq.len()
                    ==> #[trigger] entry_seq[k] != lh,
                forall|k: int, m: int| 0 <= k < m < entry_seq.len()
                    ==> entry_seq[k] != entry_seq[m],
                forall|k: int| i <= k < entry_seq.len() ==> #[trigger] heap.live(entry_seq[k]),
                forall|k: int| 0 <= k < i ==> !heap.live(#[trigger] entry_seq[k]),
                heap.live(lh),
                forall|x: RawHandle|
                    old(self).untouched_by_destroy(*old(heap), x) && old(heap).live(x)
                        ==> #[trigger] heap.live(x) && heap.payload_of(x)
                        == old(heap).payload_of(x),
            decreases entry_seq.len() - i,
        {
            proof {
                assert(entry_seq.contains(entry_seq[i as int]));
            }
            heap.free_slot(entries[i]);
            i = i + 1;
        }
        heap.free_slot(lh);
        self.l.h = 0;
    }
}

/// An absent list (null handle) holds exactly what an empty list holds:
/// nothing.  Every read operation treats the two states identically, so
/// walking either yields zero elements without error.
pub proof fn lemma_absent_list_is_empty<T>(heap: SlurmHeap, l: SlurmList<T>)
    requires
        l.addr() == 0,
    ensures
        l.valid(heap),
        l.elems(heap) == Seq::<RawHandle>::empty(),
{
    assert(l.elems(heap) =~= Seq::<RawHandle>::empty());
}

/// Appending an element and then walking the list yields that element,
/// with its stored fields unchanged, at the final position: the walk's
/// `k`-th yield views the `k`-th element handle, and after an append the
/// last handle is the appended item, whose payload the append did not
/// touch.
pub proof fn lemma_append_round_trip<T>(
    pre: SlurmHeap,
    post: SlurmHeap,
    l0: SlurmList<T>,
    l1: SlurmList<T>,
    item_h: RawHandle,
)
    requires
        l1.elems(post) == l0.elems(pre).push(item_h),
        post.live(item_h),
        post.payload_of(item_h) == pre.payload_of(item_h),
    ensures
        l1.elems(post).len() == l0.elems(pre).len() + 1,
        l1.elems(post).last() == item_h,
        post.payload_of(l1.elems(post).last()) == pre.payload_of(item_h),
        post.live(l1.elems(post).last()),
{
}

/// An owned iterator over a `SlurmList`: it holds its own foreign cursor
/// and produces a lazy, finite, forward-only sequence of element views.
#[derive(Debug)]
pub struct SlurmListIteratorOwned<T> {
    /// Handle of the foreign cursor.
    pub h: RawHandle,
    pub marker: PhantomData<T>,
}

impl<T> SlurmListIteratorOwned<T> {
    /// The raw cursor handle this iterator owns.
    pub open spec fn addr(self) -> RawHandle {
        self.h
    }

    /// The cursor state currently stored in the heap.
    pub open spec fn cursor(self, heap: SlurmHeap) -> ListIterData {
        heap.payload_of(self.h)->ListIter_0
    }

    /// The cursor is live and bound to a null or live list.
    pub open spec fn valid(self, heap: SlurmHeap) -> bool {
        &&& heap.live(self.h)
        &&& heap.payload_of(self.h) matches Payload::ListIter(d) && (d.list == 0 || (
        heap.live(d.list) && heap.payload_of(d.list) is List))
    }

    /// Destroy the iterator, releasing only its cursor — never the list or
    /// the elements.  The handle is nulled, so a second call is a no-op.
    pub fn destroy(&mut self, heap: &mut SlurmHeap)
        requires
            old(heap).wf(),
            old(self).addr() == 0 || old(heap).live(old(self).addr()),
        ensures
            final(heap).wf(),
            final(self).addr() == 0,
            crate::heap::freed_once(*old(heap), *final(heap), old(self).addr()),
    {
        crate::heap::slurm_free(heap, &mut self.h);
    }
}

impl<T: UnownedFromSlurmPointer> SlurmListIteratorOwned<T> {
    /// Advance the foreign cursor: yield a view of the next element, or
    /// nothing at the end of the sequence.  An absent list behaves exactly
    /// like an empty one, and an exhausted cursor stays exhausted — the
    /// call then changes nothing at all.
    pub fn next(&mut self, heap: &mut SlurmHeap) -> (r: Option<T>)
        requires
            old(heap).wf(),
            old(self).valid(*old(heap)),
        ensures
            final(heap).wf(),
            *final(self) == *old(self),
            final(self).valid(*final(heap)),
            ({
                let cur = old(self).cursor(*old(heap));
                let es = list_elems_at(*old(heap), cur.list);
                if cur.list == 0 || cur.pos >= es.len() {
                    r is None && *final(heap) == *old(heap)
                } else {
                    &&& r matches Some(v) && v.spec_handle() == es[cur.pos as int]
                    &&& unchanged_except(*old(heap), *final(heap), old(self).addr())
                    &&& final(self).cursor(*final(heap)) == (ListIterData {
                        list: cur.list,
                        pos: (cur.pos + 1) as usize,
                    })
                }
            }),
    {
        let cur: ListIterData = match heap.read(self.h) {
            Payload::ListIter(d) => *d,
            _ => vstd::pervasive::unreached(),
        };
        if cur.list == 0 {
            return None;
        }
        let (len, elem): (usize, RawHandle) = match heap.read(cur.list) {
            Payload::List(v) => {
                if cur.pos < v.len() {
                    (v.len(), v[cur.pos])
                } else {
                    (v.len(), 0)
                }
            },
            _ => vstd::pervasive::unreached(),
        };
        if cur.pos >= len {
            return None;
        }
        heap.write(
            self.h,
            Payload::ListIter(ListIterData { list: cur.list, pos: cur.pos + 1 }),
        );
        Some(T::unowned_from_slurm_pointer(elem))
    }
}

} // verus!
