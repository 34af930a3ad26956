//! The calling-convention bridge's bookkeeping: per-interface method
//! tables naming how each method crosses the boundary, and the table of live
//! adapters pairing a host-convention object with the foreign object inside.

use vstd::prelude::*;
use std::collections::HashMap;

verus! {

broadcast use vstd::std_specs::hash::group_hash_axioms;

/// The interfaces that cross the boundary.
#[derive(Debug, Clone, Copy, PartialEq, Eq, Structural)]
pub enum Interface {
    Blob,
    Reflection,
    ConstantBuffer,
    Variable,
    Type,
}

/// How one method's call crosses the boundary.
#[derive(Debug, Clone, Copy, PartialEq, Eq, Structural)]
pub enum Handler {
    /// Arguments and result forwarded unchanged.
    Passthrough,
    /// An output-struct pointer forwarded as is: both sides share the layout.
    Cast,
    /// The returned foreign object wrapped in a new adapter of this interface.
    Wrap(Interface),
    /// The adapter passed as the argument at this position replaced by the
    /// foreign object inside it.
    Unwrap(u32),
    /// The count forwarded; the adapter freed when it reaches zero.
    Release,
}

/// The methods of an interface, in vtable order, with their handlers.
pub open spec fn method_table(i: Interface) -> Seq<(&'static str, Handler)> {
    match i {
        Interface::Blob => seq![("QueryInterface", Handler::Passthrough), ("AddRef", Handler::Passthrough), ("Release", Handler::Release), ("GetBufferPointer", Handler::Passthrough), ("GetBufferSize", Handler::Passthrough)],
        Interface::Reflection => seq![("QueryInterface", Handler::Passthrough), ("AddRef", Handler::Passthrough), ("Release", Handler::Release), ("GetDesc", Handler::Cast), ("GetConstantBufferByIndex", Handler::Wrap(Interface::ConstantBuffer)), ("GetConstantBufferByName", Handler::Wrap(Interface::ConstantBuffer)), ("GetResourceBindingDesc", Handler::Cast), ("GetInputParameterDesc", Handler::Cast), ("GetOutputParameterDesc", Handler::Cast), ("GetPatchConstantParameterDesc", Handler::Cast), ("GetVariableByName", Handler::Wrap(Interface::Variable)), ("GetResourceBindingDescByName", Handler::Cast), ("GetMovInstructionCount", Handler::Passthrough), ("GetMovcInstructionCount", Handler::Passthrough), ("GetConversionInstructionCount", Handler::Passthrough), ("GetBitwiseInstructionCount", Handler::Passthrough), ("GetGSInputPrimitive", Handler::Passthrough), ("IsSampleFrequencyShader", Handler::Passthrough), ("GetNumInterfaceSlots", Handler::Passthrough), ("GetMinFeatureLevel", Handler::Passthrough), ("GetThreadGroupSize", Handler::Passthrough), ("GetRequiresFlags", Handler::Passthrough)],
        Interface::ConstantBuffer => seq![("GetDesc", Handler::Cast), ("GetVariableByIndex", Handler::Wrap(Interface::Variable)), ("GetVariableByName", Handler::Wrap(Interface::Variable))],
        Interface::Variable => seq![("GetDesc", Handler::Cast), ("GetType", Handler::Wrap(Interface::Type)), ("GetBuffer", Handler::Wrap(Interface::ConstantBuffer)), ("GetInterfaceSlot", Handler::Passthrough)],
        Interface::Type => seq![("GetDesc", Handler::Cast), ("GetMemberTypeByIndex", Handler::Wrap(Interface::Type)), ("GetMemberTypeByName", Handler::Wrap(Interface::Type)), ("GetMemberTypeName", Handler::Passthrough), ("IsEqual", Handler::Unwrap(0)), ("GetSubType", Handler::Wrap(Interface::Type)), ("GetBaseClass", Handler::Wrap(Interface::Type)), ("GetNumInterfaces", Handler::Passthrough), ("GetInterfaceByIndex", Handler::Wrap(Interface::Type)), ("IsOfType", Handler::Unwrap(0)), ("ImplementsInterface", Handler::Unwrap(0))],
    }
}

/// The methods of an interface, in vtable order, with their handlers.
pub fn interface_methods(i: Interface) -> (r: Vec<(&'static str, Handler)>)
    ensures
        r@ == method_table(i),
{
    let r = match i {
            Interface::Blob => vec![("QueryInterface", Handler::Passthrough), ("AddRef", Handler::Passthrough), ("Release", Handler::Release), ("GetBufferPointer", Handler::Passthrough), ("GetBufferSize", Handler::Passthrough)],
            Interface::Reflection => vec![("QueryInterface", Handler::Passthrough), ("AddRef", Handler::Passthrough), ("Release", Handler::Release), ("GetDesc", Handler::Cast), ("GetConstantBufferByIndex", Handler::Wrap(Interface::ConstantBuffer)), ("GetConstantBufferByName", Handler::Wrap(Interface::ConstantBuffer)), ("GetResourceBindingDesc", Handler::Cast), ("GetInputParameterDesc", Handler::Cast), ("GetOutputParameterDesc", Handler::Cast), ("GetPatchConstantParameterDesc", Handler::Cast), ("GetVariableByName", Handler::Wrap(Interface::Variable)), ("GetResourceBindingDescByName", Handler::Cast), ("GetMovInstructionCount", Handler::Passthrough), ("GetMovcInstructionCount", Handler::Passthrough), ("GetConversionInstructionCount", Handler::Passthrough), ("GetBitwiseInstructionCount", Handler::Passthrough), ("GetGSInputPrimitive", Handler::Passthrough), ("IsSampleFrequencyShader", Handler::Passthrough), ("GetNumInterfaceSlots", Handler::Passthrough), ("GetMinFeatureLevel", Handler::Passthrough), ("GetThreadGroupSize", Handler::Passthrough), ("GetRequiresFlags", Handler::Passthrough)],
            Interface::ConstantBuffer => vec![("GetDesc", Handler::Cast), ("GetVariableByIndex", Handler::Wrap(Interface::Variable)), ("GetVariableByName", Handler::Wrap(Interface::Variable))],
            Interface::Variable => vec![("GetDesc", Handler::Cast), ("GetType", Handler::Wrap(Interface::Type)), ("GetBuffer", Handler::Wrap(Interface::ConstantBuffer)), ("GetInterfaceSlot", Handler::Passthrough)],
            Interface::Type => vec![("GetDesc", Handler::Cast), ("GetMemberTypeByIndex", Handler::Wrap(Interface::Type)), ("GetMemberTypeByName", Handler::Wrap(Interface::Type)), ("GetMemberTypeName", Handler::Passthrough), ("IsEqual", Handler::Unwrap(0)), ("GetSubType", Handler::Wrap(Interface::Type)), ("GetBaseClass", Handler::Wrap(Interface::Type)), ("GetNumInterfaces", Handler::Passthrough), ("GetInterfaceByIndex", Handler::Wrap(Interface::Type)), ("IsOfType", Handler::Unwrap(0)), ("ImplementsInterface", Handler::Unwrap(0))],
        };
    assert(r@ =~= method_table(i));
    r
}

/// Live adapters, each naming its interface and the foreign object inside.
pub struct AdapterTable {
    next: u64,
    live: HashMap<u64, (Interface, u64)>,
}

/// The table after a release that left `count` references: the adapter is
/// dropped exactly when the count reached zero.
pub open spec fn after_release(m: Map<u64, (Interface, u64)>, a: u64, count: u32) -> Map<
    u64,
    (Interface, u64),
> {
    if count == 0 {
        m.remove(a)
    } else {
        m
    }
}

impl AdapterTable {
    /// Live adapters and what they wrap.
    pub closed spec fn view(&self) -> Map<u64, (Interface, u64)> {
        self.live@
    }

    /// The identity the next adapter receives.
    pub closed spec fn next_id(&self) -> u64 {
        self.next
    }

    /// Identities are never 0 (the null object) and never reused.
    pub open spec fn wf(&self) -> bool {
        &&& self.next_id() >= 1
        &&& forall|a: u64| #[trigger] self@.contains_key(a) ==> 1 <= a < self.next_id()
    }

    /// No live adapter.
    pub fn new() -> (r: AdapterTable)
        ensures
            r@ == Map::<u64, (Interface, u64)>::empty(),
            r.wf(),
    {
        AdapterTable { next: 1, live: HashMap::new() }
    }

    /// An adapter for the foreign object `inner`: 0 for the null object,
    /// else a fresh identity (0 too once identities are exhausted).
    pub fn wrap(&mut self, iface: Interface, inner: u64) -> (r: u64)
        requires
            old(self).wf(),
        ensures
            final(self).wf(),
            inner == 0 ==> r == 0 && final(self)@ == old(self)@,
            inner != 0 && old(self).next_id() < u64::MAX ==> {
                &&& r == old(self).next_id()
                &&& !old(self)@.contains_key(r)
                &&& final(self)@ == old(self)@.insert(r, (iface, inner))
            },
            inner != 0 && old(self).next_id() == u64::MAX ==> r == 0 && final(self)@ == old(self)@,
    {
        if inner == 0 || self.next == u64::MAX {
            return 0;
        }
        let a = self.next;
        self.live.insert(a, (iface, inner));
        self.next = self.next + 1;
        assert forall|k: u64| #[trigger] self@.contains_key(k) implies 1 <= k < self.next_id() by {
            if k != a {
                assert(old(self)@.contains_key(k));
            }
        }
        a
    }

    /// The interface and foreign object of a live adapter.
    pub fn inner_of(&self, adapter: u64) -> (r: Option<(Interface, u64)>)
        ensures
            match r {
                Some(p) => self@.contains_key(adapter) && p == self@[adapter],
                None => !self@.contains_key(adapter),
            },
    {
        match self.live.get(&adapter) {
            Some(p) => Some(*p),
            None => None,
        }
    }

    /// The foreign object to pass for an adapter argument of interface
    /// `iface`: the null object stays null; an adapter of another interface,
    /// or no adapter at all, gives nothing.
    pub fn unwrap_arg(&self, iface: Interface, arg: u64) -> (r: Option<u64>)
        ensures
            arg == 0 ==> r == Some(0u64),
            arg != 0 ==> r == if self@.contains_key(arg) && self@[arg].0 == iface {
                Some(self@[arg].1)
            } else {
                None::<u64>
            },
    {
        if arg == 0 {
            return Some(0);
        }
        match self.live.get(&arg) {
            Some(p) => if p.0 == iface {
                Some(p.1)
            } else {
                None
            },
            None => None,
        }
    }

    /// Forwards the count the foreign release left; drops the adapter when
    /// it is zero. Returns the count and whether the adapter was dropped.
    pub fn release(&mut self, adapter: u64, count: u32) -> (r: (u32, bool))
        requires
            old(self).wf(),
        ensures
            final(self).wf(),
            r.0 == count,
            r.1 == (count == 0 && old(self)@.contains_key(adapter)),
            final(self)@ == after_release(old(self)@, adapter, count),
    {
        if count != 0 {
            return (count, false);
        }
        let dropped = self.live.remove(&adapter);
        assert forall|k: u64| #[trigger] self@.contains_key(k) implies 1 <= k < self.next_id() by {
            assert(old(self)@.contains_key(k));
        }
        proof {
            if dropped is None {
                assert(self@ =~= old(self)@.remove(adapter));
            }
        }
        (count, dropped.is_some())
    }

    /// The number of live adapters.
    pub fn len(&self) -> (r: usize)
        ensures
            r == self@.len(),
    {
        self.live.len()
    }
}

/// The table and the number of times the adapter was dropped after releases
/// leaving `counts`, in order.
pub open spec fn release_run(m: Map<u64, (Interface, u64)>, a: u64, counts: Seq<u32>) -> (
    Map<u64, (Interface, u64)>,
    nat,
)
    decreases counts.len(),
{
    if counts.len() == 0 {
        (m, 0)
    } else {
        let (prev, n) = release_run(m, a, counts.drop_last());
        let dropped: nat = if counts.last() == 0 && prev.contains_key(a) {
            1
        } else {
            0
        };
        (after_release(prev, a, counts.last()), n + dropped)
    }
}

/// Releases whose counts stay above zero until the last one, which reaches
/// zero, drop a live adapter exactly once, at that last release; before it
/// the adapter stays live.
pub proof fn lemma_single_teardown(m: Map<u64, (Interface, u64)>, a: u64, counts: Seq<u32>)
    requires
        m.contains_key(a),
        counts.len() > 0,
        counts.last() == 0,
        forall|i: int| 0 <= i < counts.len() - 1 ==> counts[i] != 0,
    ensures
        release_run(m, a, counts).1 == 1,
        !release_run(m, a, counts).0.contains_key(a),
        forall|k: int|
            0 <= k < counts.len() ==> #[trigger] release_run(m, a, counts.take(k)).0.contains_key(a)
                && release_run(m, a, counts.take(k)).1 == 0,
{
    assert forall|k: int| 0 <= k < counts.len() implies #[trigger] release_run(
        m,
        a,
        counts.take(k),
    ).0.contains_key(a) && release_run(m, a, counts.take(k)).1 == 0 by {
        lemma_no_teardown_before_zero(m, a, counts, k);
    }
    lemma_no_teardown_before_zero(m, a, counts, counts.len() - 1);
    assert(counts.drop_last() =~= counts.take(counts.len() - 1));
}

proof fn lemma_no_teardown_before_zero(
    m: Map<u64, (Interface, u64)>,
    a: u64,
    counts: Seq<u32>,
    k: int,
)
    requires
        m.contains_key(a),
        0 <= k < counts.len(),
        forall|i: int| 0 <= i < k ==> counts[i] != 0,
    ensures
        release_run(m, a, counts.take(k)).0 == m,
        release_run(m, a, counts.take(k)).1 == 0,
    decreases k,
{
    if k > 0 {
        lemma_no_teardown_before_zero(m, a, counts, k - 1);
        assert(counts.take(k).drop_last() =~= counts.take(k - 1));
        assert(counts.take(k).last() == counts[k - 1]);
    } else {
        assert(counts.take(0) =~= Seq::<u32>::empty());
    }
}

} // verus!
