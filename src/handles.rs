//! Tables that map the opaque handle integers the foreign image holds
//! into host resources.

use vstd::prelude::*;
use std::collections::HashMap;

verus! {

broadcast use vstd::std_specs::hash::group_hash_axioms;

/// First handle of the file and mapping table: far below any heap pointer.
pub const FILE_HANDLE_BASE: u32 = 0x1000;

/// First handle of the hash-context table.
pub const CRYPTO_HANDLE_BASE: u32 = 0x2000;

/// First thread-local storage slot index.
pub const TLS_SLOT_BASE: u32 = 0;

/// Handles allocated from a counter that only grows, each mapped to a value.
pub struct HandleTable<V> {
    next: u32,
    entries: HashMap<usize, V>,
}

impl<V> HandleTable<V> {
    /// The live handles and what they stand for.
    pub closed spec fn view(&self) -> Map<usize, V> {
        self.entries@
    }

    /// The handle the next allocation hands out.
    pub closed spec fn next_handle(&self) -> u32 {
        self.next
    }

    /// Every live handle lies below the counter, so a fresh handle never
    /// collides with a live one.
    pub open spec fn wf(&self) -> bool {
        forall|h: usize| #[trigger] self@.contains_key(h) ==> h < self.next_handle()
    }

    /// An empty table whose first handle is `base`.
    pub fn new(base: u32) -> (r: HandleTable<V>)
        ensures
            r@ == Map::<usize, V>::empty(),
            r.next_handle() == base,
            r.wf(),
    {
        HandleTable { next: base, entries: HashMap::new() }
    }

    /// Maps a fresh handle to `value`; none once the counter is exhausted.
    pub fn allocate(&mut self, value: V) -> (r: Option<usize>)
        requires
            old(self).wf(),
        ensures
            final(self).wf(),
            match r {
                Some(h) => {
                    &&& h == old(self).next_handle()
                    &&& !old(self)@.contains_key(h)
                    &&& final(self)@ == old(self)@.insert(h, value)
                    &&& final(self).next_handle() == old(self).next_handle() + 1
                },
                None => old(self).next_handle() == u32::MAX && final(self)@ == old(self)@
                    && final(self).next_handle() == old(self).next_handle(),
            },
    {
        if self.next == u32::MAX {
            return None;
        }
        let h = self.next as usize;
        self.entries.insert(h, value);
        self.next = self.next + 1;
        assert forall|k: usize| #[trigger] self@.contains_key(k) implies k < self.next_handle() by {
            if k != h {
                assert(old(self)@.contains_key(k));
            }
        }
        Some(h)
    }

    /// What `handle` stands for, if it is live.
    pub fn get(&self, handle: usize) -> (r: Option<&V>)
        ensures
            match r {
                Some(v) => self@.contains_key(handle) && *v == self@[handle],
                None => !self@.contains_key(handle),
            },
    {
        self.entries.get(&handle)
    }

    /// Removes `handle`, giving back what it stood for; an absent handle
    /// gives nothing and leaves the table as it was.
    pub fn free(&mut self, handle: usize) -> (r: Option<V>)
        requires
            old(self).wf(),
        ensures
            final(self).wf(),
            final(self)@ == old(self)@.remove(handle),
            final(self).next_handle() == old(self).next_handle(),
            match r {
                Some(v) => old(self)@.contains_key(handle) && v == old(self)@[handle],
                None => !old(self)@.contains_key(handle) && final(self)@ == old(self)@,
            },
    {
        let r = self.entries.remove(&handle);
        assert forall|k: usize| #[trigger] self@.contains_key(k) implies k < self.next_handle() by {
            assert(old(self)@.contains_key(k));
        }
        proof {
            if r is None {
                assert(self@ =~= old(self)@);
            }
        }
        r
    }

    /// Maps the live or once-freed `handle` to `value` again, keeping the
    /// counter; a handle at or above the counter is refused.
    pub fn put_back(&mut self, handle: usize, value: V) -> (r: bool)
        requires
            old(self).wf(),
        ensures
            final(self).wf(),
            final(self).next_handle() == old(self).next_handle(),
            r == (handle < old(self).next_handle()),
            r ==> final(self)@ == old(self)@.insert(handle, value),
            !r ==> final(self)@ == old(self)@,
    {
        if handle >= self.next as usize {
            return false;
        }
        self.entries.insert(handle, value);
        assert forall|k: usize| #[trigger] self@.contains_key(k) implies k < self.next_handle() by {
            if k != handle {
                assert(old(self)@.contains_key(k));
            }
        }
        true
    }

    /// The number of live handles.
    pub fn len(&self) -> (r: usize)
        ensures
            r == self@.len(),
    {
        self.entries.len()
    }
}

/// The table after mapping `handles[i]` to `values[i]`, in order.
pub open spec fn allocated<V>(m: Map<usize, V>, handles: Seq<usize>, values: Seq<V>) -> Map<
    usize,
    V,
>
    decreases handles.len(),
{
    if handles.len() == 0 || values.len() == 0 {
        m
    } else {
        allocated(m, handles.drop_last(), values.drop_last()).insert(handles.last(), values.last())
    }
}

/// The table after freeing `handles`, in order.
pub open spec fn freed<V>(m: Map<usize, V>, handles: Seq<usize>) -> Map<usize, V>
    decreases handles.len(),
{
    if handles.len() == 0 {
        m
    } else {
        freed(m, handles.drop_last()).remove(handles.last())
    }
}

proof fn lemma_allocated_domain<V>(m: Map<usize, V>, handles: Seq<usize>, values: Seq<V>)
    requires
        handles.len() == values.len(),
    ensures
        allocated(m, handles, values).dom() == m.dom().union(handles.to_set()),
    decreases handles.len(),
{
    if handles.len() > 0 {
        lemma_allocated_domain(m, handles.drop_last(), values.drop_last());
        assert(handles.to_set() =~= handles.drop_last().to_set().insert(handles.last())) by {
            assert forall|x: usize| handles.to_set().contains(x) implies handles.drop_last().to_set().insert(handles.last()).contains(x) by {
                let i = choose|i: int| 0 <= i < handles.len() && handles[i] == x;
                if i < handles.len() - 1 {
                    assert(handles.drop_last()[i] == x);
                }
            }
            assert forall|x: usize| handles.drop_last().to_set().insert(handles.last()).contains(x) implies handles.to_set().contains(x) by {
                if x != handles.last() {
                    let i = choose|i: int| 0 <= i < handles.drop_last().len() && handles.drop_last()[i] == x;
                    assert(handles[i] == x);
                } else {
                    assert(handles[handles.len() - 1] == x);
                }
            }
        }
        assert(allocated(m, handles, values).dom() =~= m.dom().union(handles.to_set()));
    } else {
        assert(handles.to_set() =~= Set::<usize>::empty());
        assert(allocated(m, handles, values).dom() =~= m.dom().union(handles.to_set()));
    }
}

proof fn lemma_freed_domain<V>(m: Map<usize, V>, handles: Seq<usize>)
    ensures
        freed(m, handles).dom() == m.dom().difference(handles.to_set()),
    decreases handles.len(),
{
    if handles.len() > 0 {
        lemma_freed_domain(m, handles.drop_last());
        assert forall|x: usize| handles.to_set().contains(x) <==> (handles.drop_last().to_set().contains(x) || x == handles.last()) by {
            if handles.to_set().contains(x) && x != handles.last() {
                let i = choose|i: int| 0 <= i < handles.len() && handles[i] == x;
                assert(handles.drop_last()[i] == x);
            }
            if handles.drop_last().to_set().contains(x) {
                let i = choose|i: int| 0 <= i < handles.drop_last().len() && handles.drop_last()[i] == x;
                assert(handles[i] == x);
            }
            if x == handles.last() {
                assert(handles[handles.len() - 1] == x);
            }
        }
        assert(freed(m, handles).dom() =~= m.dom().difference(handles.to_set()));
    } else {
        assert(freed(m, handles).dom() =~= m.dom().difference(handles.to_set()));
    }
}

/// Allocating handles into an empty table and then freeing each of them
/// leaves the table empty.
pub proof fn lemma_free_all_empties<V>(handles: Seq<usize>, values: Seq<V>)
    requires
        handles.len() == values.len(),
    ensures
        freed(allocated(Map::<usize, V>::empty(), handles, values), handles) == Map::<
            usize,
            V,
        >::empty(),
{
    let a = allocated(Map::<usize, V>::empty(), handles, values);
    lemma_allocated_domain(Map::<usize, V>::empty(), handles, values);
    lemma_freed_domain(a, handles);
    assert(freed(a, handles).dom() =~= Set::<usize>::empty());
    assert(freed(a, handles) =~= Map::<usize, V>::empty());
}

/// Freeing a handle a second time finds nothing and leaves every other
/// handle as it was.
pub proof fn lemma_second_free_is_noop<V>(m: Map<usize, V>, h: usize)
    ensures
        !m.remove(h).contains_key(h),
        m.remove(h).remove(h) == m.remove(h),
        forall|k: usize| k != h && m.contains_key(k) ==> #[trigger] m.remove(h).contains_key(k) && m.remove(h)[k] == m[k],
{
    assert(m.remove(h).remove(h) =~= m.remove(h));
}

} // verus!
