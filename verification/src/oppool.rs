//! A pool of socket-address buffers for accept operations, used as a
//! stack: the last buffer given back is the first handed out again.
use vstd::prelude::*;

verus! {

/// Buffers for accepted peers' addresses. The slots below the free count
/// hold a buffer, those above are lent out.
pub struct AcceptPool<T> {
    free_sockaddrs: Vec<Option<T>>,
    /// Index of the last free buffer; `usize::MAX` (wrapped from zero less
    /// one) when none is free.
    last_free_index: usize,
}

impl<T> AcceptPool<T> {
    /// How many buffers are free.
    pub closed spec fn free_count(&self) -> int {
        if self.last_free_index == usize::MAX {
            0
        } else {
            self.last_free_index + 1
        }
    }

    /// The pool's size.
    pub closed spec fn capacity(&self) -> int {
        self.free_sockaddrs@.len() as int
    }

    /// The free buffers, bottom of the stack first.
    pub closed spec fn free_buffers(&self) -> Seq<T> {
        Seq::new(self.free_count() as nat, |i: int| self.free_sockaddrs@[i]->Some_0)
    }

    pub closed spec fn wf(&self) -> bool {
        &&& self.free_count() <= self.capacity()
        &&& self.capacity() < usize::MAX
        &&& forall|i: int|
            0 <= i < self.capacity() ==> (#[trigger] self.free_sockaddrs@[i] is Some <==> i
                < self.free_count())
    }

    /// A well-formed pool never holds more free buffers than its size, so a
    /// buffer lent out can always be given back.
    pub proof fn lemma_free_within_capacity(&self)
        requires
            self.wf(),
        ensures
            self.free_buffers().len() <= self.capacity(),
    {
    }

    /// A pool whose buffers are all free.
    pub fn new(buffers: Vec<T>) -> (p: AcceptPool<T>)
        requires
            buffers@.len() < usize::MAX,
        ensures
            p.wf(),
            p.capacity() == buffers@.len(),
            p.free_buffers() == buffers@,
            p.free_buffers().len() <= p.capacity(),
    {
        let mut free_sockaddrs: Vec<Option<T>> = Vec::new();
        let mut buffers = buffers;
        let ghost given = buffers@;
        let mut rest: Vec<T> = Vec::new();
        while buffers.len() > 0
            invariant
                rest@ + buffers@.reverse() == given.reverse(),
            decreases buffers.len(),
        {
            let b = buffers.pop().unwrap();
            proof {
                assert(buffers@.push(b).reverse() =~= seq![b] + buffers@.reverse());
                assert(rest@.push(b) + buffers@.reverse() =~= rest@ + (seq![b] + buffers@.reverse()));
            }
            rest.push(b);
        }
        proof {
            assert(buffers@.reverse() =~= Seq::<T>::empty());
            assert(rest@ =~= given.reverse());
        }
        while rest.len() > 0
            invariant
                free_sockaddrs@.len() + rest@.len() == given.len(),
                forall|i: int| 0 <= i < free_sockaddrs@.len() ==> #[trigger] free_sockaddrs@[i] == Some(given[i]),
                forall|i: int| 0 <= i < rest@.len() ==> #[trigger] rest@[i] == given[given.len() - 1 - i],
            decreases rest.len(),
        {
            let b = rest.pop().unwrap();
            free_sockaddrs.push(Some(b));
        }
        let last_free_index = free_sockaddrs.len().wrapping_sub(1);
        let p = AcceptPool { free_sockaddrs, last_free_index };
        proof {
            assert(p.free_buffers() =~= given);
        }
        p
    }

    /// Lends out the last free buffer, if any.
    pub fn acquire_sockaddr(&mut self) -> (b: Option<T>)
        requires
            old(self).wf(),
        ensures
            final(self).wf(),
            final(self).capacity() == old(self).capacity(),
            final(self).free_buffers().len() <= final(self).capacity(),
            old(self).free_buffers().len() == 0 ==> b is None && final(self).free_buffers() == old(
                self,
            ).free_buffers(),
            old(self).free_buffers().len() > 0 ==> {
                &&& final(self).free_buffers().len() < final(self).capacity()
                &&& b == Some(old(self).free_buffers().last())
                &&& final(self).free_buffers() == old(self).free_buffers().drop_last()
            },
    {
        if self.last_free_index < self.free_sockaddrs.len() {
            let maybe_sockaddr = self.free_sockaddrs[self.last_free_index].take();
            self.last_free_index = self.last_free_index.wrapping_sub(1);
            proof {
                assert(self.free_buffers() =~= old(self).free_buffers().drop_last());
            }
            maybe_sockaddr
        } else {
            None
        }
    }

    /// Gives a lent buffer back.
    pub fn release_sockaddr(&mut self, sockaddr: T)
        requires
            old(self).wf(),
            old(self).free_buffers().len() < old(self).capacity(),
        ensures
            final(self).wf(),
            final(self).capacity() == old(self).capacity(),
            final(self).free_buffers().len() <= final(self).capacity(),
            final(self).free_buffers() == old(self).free_buffers().push(sockaddr),
    {
        let new_free_index = self.last_free_index.wrapping_add(1);
        self.free_sockaddrs.set(new_free_index, Some(sockaddr));
        self.last_free_index = new_free_index;
        proof {
            assert(self.free_buffers() =~= old(self).free_buffers().push(sockaddr));
        }
    }
}

/// A buffer given back is the next one handed out, and the pool is then as
/// it was before.
pub proof fn lemma_release_then_acquire<T>(free: Seq<T>, b: T)
    ensures
        free.push(b).last() == b,
        free.push(b).drop_last() == free,
{
    assert(free.push(b).drop_last() =~= free);
}

/// Lending out the last free buffer and giving it back leaves the free
/// buffers as they were.
pub proof fn lemma_acquire_then_release<T>(free: Seq<T>)
    requires
        free.len() > 0,
    ensures
        free.drop_last().push(free.last()) == free,
{
    assert(free.drop_last().push(free.last()) =~= free);
}

} // verus!
