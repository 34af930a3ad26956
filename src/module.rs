//! Module bring-up: computed at most once per process, its outcome (success
//! or the error) shared by every caller afterwards.

use vstd::prelude::*;
use crate::image::{D3DCompilerError, EntryPoints};

verus! {

/// The generic failure status a bridged entry point reports when bring-up
/// failed.
pub const E_FAIL: i32 = -2147467259;

/// What a successful bring-up leaves behind.
#[derive(Debug)]
pub struct ModuleState {
    /// Where the image is mapped.
    pub map_base: u64,
    /// Size of the mapping.
    pub map_size: u64,
    /// The compiler entry points.
    pub entry: EntryPoints,
}

/// A value computed at most once: the first outcome recorded stays.
pub struct InitCell<T> {
    value: Option<T>,
}

/// The outcome the cell holds after offering `offers`, in order, to a cell
/// that held `start`.
pub open spec fn settled<T>(start: Option<T>, offers: Seq<T>) -> Option<T>
    decreases offers.len(),
{
    if offers.len() == 0 {
        start
    } else {
        match settled(start, offers.drop_last()) {
            Some(v) => Some(v),
            None => Some(offers.last()),
        }
    }
}

impl<T> InitCell<T> {
    /// The recorded outcome, if any.
    pub closed spec fn view(&self) -> Option<T> {
        self.value
    }

    /// A cell with nothing recorded.
    pub fn new() -> (r: InitCell<T>)
        ensures
            r@ is None,
    {
        InitCell { value: None }
    }

    /// The recorded outcome, if any.
    pub fn get(&self) -> (r: Option<&T>)
        ensures
            match r {
                Some(v) => self@ == Some(*v),
                None => self@ is None,
            },
    {
        match &self.value {
            Some(v) => Some(v),
            None => None,
        }
    }

    /// Records `outcome` unless an outcome is recorded already; true when it
    /// was recorded.
    pub fn offer(&mut self, outcome: T) -> (r: bool)
        ensures
            r == (old(self)@ is None),
            final(self)@ == settled(old(self)@, seq![outcome]),
    {
        assert(seq![outcome].drop_last() =~= Seq::<T>::empty());
        assert(settled(old(self)@, Seq::<T>::empty()) == old(self)@);
        assert(seq![outcome].last() == outcome);
        if self.value.is_none() {
            self.value = Some(outcome);
            true
        } else {
            false
        }
    }
}

/// However many callers offer an outcome, in whatever order, every one of
/// them afterwards observes the outcome offered first; once recorded it never
/// changes.
pub proof fn lemma_first_outcome_is_shared<T>(offers: Seq<T>, i: int)
    requires
        0 < i <= offers.len(),
    ensures
        settled(None::<T>, offers.take(i)) == Some(offers[0]),
    decreases i,
{
    if i == 1 {
        assert(offers.take(1).drop_last() =~= Seq::<T>::empty());
        assert(settled(None::<T>, Seq::<T>::empty()) == None::<T>);
        assert(offers.take(1).last() == offers[0]);
    } else {
        lemma_first_outcome_is_shared(offers, i - 1);
        assert(offers.take(i).drop_last() =~= offers.take(i - 1));
        assert(settled(None::<T>, offers.take(i).drop_last()) == Some(offers[0]));
    }
}

/// The status a bridged call reports before reaching the compiler: none when
/// bring-up succeeded (the call goes ahead), the generic failure otherwise.
pub fn gate_status(outcome: &Result<ModuleState, D3DCompilerError>) -> (r: Option<i32>)
    ensures
        match outcome {
            Ok(_) => r is None,
            Err(_) => r == Some(E_FAIL),
        },
{
    match outcome {
        Ok(_) => None,
        Err(_) => Some(E_FAIL),
    }
}

} // verus!
